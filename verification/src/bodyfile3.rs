//! One line of a body file.

use crate::decimal::push_decimal;
use crate::model::{Field, LineView, Update, Value};
use vstd::prelude::*;

verus! {

/// One line of a body file in the format of TSK 3.x: the metadata of one
/// filesystem object.
///
/// The line is written as
///
/// ```text
/// MD5|name|inode|mode_as_string|UID|GID|size|atime|mtime|ctime|crtime
/// ```
///
/// Times are UNIX timestamps. No field is checked: whatever is stored is
/// written out again as it is, also a name that holds a `|`.
pub struct Bodyfile3Line {
    md5: String,
    name: String,
    inode: String,
    mode_as_string: String,
    uid: i64,
    gid: i64,
    size: i64,
    atime: i64,
    mtime: i64,
    ctime: i64,
    crtime: i64,
}

impl View for Bodyfile3Line {
    type V = LineView;

    closed spec fn view(&self) -> LineView {
        LineView {
            md5: self.md5@,
            name: self.name@,
            inode: self.inode@,
            mode_as_string: self.mode_as_string@,
            uid: self.uid,
            gid: self.gid,
            size: self.size,
            atime: self.atime,
            mtime: self.mtime,
            ctime: self.ctime,
            crtime: self.crtime,
        }
    }
}

/// Appends the separator of two fields.
fn push_separator(out: &mut String)
    ensures
        final(out)@ == old(out)@ + seq!['|'],
{
    proof {
        reveal_strlit("|");
    }
    out.append("|");
}

impl Bodyfile3Line {
    /// A line with nothing known: `0` for the digest and the inode, an empty
    /// name and mode, `0` for owner, group and size, `-1` for the four times.
    pub fn new() -> (line: Self)
        ensures
            line@.md5 == seq!['0'],
            line@.name == Seq::<char>::empty(),
            line@.inode == seq!['0'],
            line@.mode_as_string == Seq::<char>::empty(),
            line@.uid == 0,
            line@.gid == 0,
            line@.size == 0,
            line@.atime == -1,
            line@.mtime == -1,
            line@.ctime == -1,
            line@.crtime == -1,
    {
        proof {
            reveal_strlit("0");
            reveal_strlit("");
        }
        Self {
            md5: "0".to_owned(),
            name: "".to_owned(),
            inode: "0".to_owned(),
            mode_as_string: "".to_owned(),
            uid: 0,
            gid: 0,
            size: 0,
            atime: -1,
            mtime: -1,
            ctime: -1,
            crtime: -1,
        }
    }

    /// A line with every field given. Nothing is checked.
    pub fn from_values(
        md5: String,
        name: String,
        inode: String,
        mode_as_string: String,
        uid: i64,
        gid: i64,
        size: i64,
        atime: i64,
        mtime: i64,
        ctime: i64,
        crtime: i64,
    ) -> (line: Self)
        ensures
            line@.md5 == md5@,
            line@.name == name@,
            line@.inode == inode@,
            line@.mode_as_string == mode_as_string@,
            line@.uid == uid,
            line@.gid == gid,
            line@.size == size,
            line@.atime == atime,
            line@.mtime == mtime,
            line@.ctime == ctime,
            line@.crtime == crtime,
    {
        Self { md5, name, inode, mode_as_string, uid, gid, size, atime, mtime, ctime, crtime }
    }

    /// The line with the MD5 digest replaced.
    pub fn with_md5(self, md5: String) -> (line: Self)
        ensures
            line@ == self@.apply(Update::Md5(md5@)),
    {
        let mut line = self;
        line.md5 = md5;
        line
    }

    /// The line with the name replaced.
    pub fn with_name(self, name: String) -> (line: Self)
        ensures
            line@ == self@.apply(Update::Name(name@)),
    {
        let mut line = self;
        line.name = name;
        line
    }

    /// The line with the inode replaced.
    pub fn with_inode(self, inode: String) -> (line: Self)
        ensures
            line@ == self@.apply(Update::Inode(inode@)),
    {
        let mut line = self;
        line.inode = inode;
        line
    }

    /// The line with the mode replaced.
    pub fn with_mode(self, mode_as_string: String) -> (line: Self)
        ensures
            line@ == self@.apply(Update::Mode(mode_as_string@)),
    {
        let mut line = self;
        line.mode_as_string = mode_as_string;
        line
    }

    /// The line with the owner replaced.
    pub fn with_uid(self, uid: i64) -> (line: Self)
        ensures
            line@ == self@.apply(Update::Uid(uid)),
    {
        let mut line = self;
        line.uid = uid;
        line
    }

    /// The line with the group replaced.
    pub fn with_gid(self, gid: i64) -> (line: Self)
        ensures
            line@ == self@.apply(Update::Gid(gid)),
    {
        let mut line = self;
        line.gid = gid;
        line
    }

    /// The line with the size replaced.
    pub fn with_size(self, size: i64) -> (line: Self)
        ensures
            line@ == self@.apply(Update::Size(size)),
    {
        let mut line = self;
        line.size = size;
        line
    }

    /// The line with the time of last access replaced.
    pub fn with_atime(self, atime: i64) -> (line: Self)
        ensures
            line@ == self@.apply(Update::Atime(atime)),
    {
        let mut line = self;
        line.atime = atime;
        line
    }

    /// The line with the time of last modification replaced.
    pub fn with_mtime(self, mtime: i64) -> (line: Self)
        ensures
            line@ == self@.apply(Update::Mtime(mtime)),
    {
        let mut line = self;
        line.mtime = mtime;
        line
    }

    /// The same as [`Self::with_mtime`], under the spelling that some callers
    /// use.
    pub fn with_mtine(self, mtime: i64) -> (line: Self)
        ensures
            line@ == self@.apply(Update::Mtime(mtime)),
    {
        self.with_mtime(mtime)
    }

    /// The line with the time of last status change replaced.
    pub fn with_ctime(self, ctime: i64) -> (line: Self)
        ensures
            line@ == self@.apply(Update::Ctime(ctime)),
    {
        let mut line = self;
        line.ctime = ctime;
        line
    }

    /// The line with the time of creation replaced.
    pub fn with_crtime(self, crtime: i64) -> (line: Self)
        ensures
            line@ == self@.apply(Update::Crtime(crtime)),
    {
        let mut line = self;
        line.crtime = crtime;
        line
    }

    /// The MD5 digest.
    pub fn get_md5(&self) -> (text: &str)
        ensures
            text@ == self@.md5,
            self@.get(Field::Md5) == Value::Text(text@),
    {
        self.md5.as_str()
    }

    /// The name.
    pub fn get_name(&self) -> (text: &str)
        ensures
            text@ == self@.name,
            self@.get(Field::Name) == Value::Text(text@),
    {
        self.name.as_str()
    }

    /// The inode.
    pub fn get_inode(&self) -> (text: &str)
        ensures
            text@ == self@.inode,
            self@.get(Field::Inode) == Value::Text(text@),
    {
        self.inode.as_str()
    }

    /// The mode.
    pub fn get_mode(&self) -> (text: &str)
        ensures
            text@ == self@.mode_as_string,
            self@.get(Field::Mode) == Value::Text(text@),
    {
        self.mode_as_string.as_str()
    }

    /// The owner.
    pub fn get_uid(&self) -> (number: i64)
        ensures
            number == self@.uid,
            self@.get(Field::Uid) == Value::Number(number),
    {
        self.uid
    }

    /// The group.
    pub fn get_gid(&self) -> (number: i64)
        ensures
            number == self@.gid,
            self@.get(Field::Gid) == Value::Number(number),
    {
        self.gid
    }

    /// The size.
    pub fn get_size(&self) -> (number: i64)
        ensures
            number == self@.size,
            self@.get(Field::Size) == Value::Number(number),
    {
        self.size
    }

    /// The time of last access.
    pub fn get_atime(&self) -> (number: i64)
        ensures
            number == self@.atime,
            self@.get(Field::Atime) == Value::Number(number),
    {
        self.atime
    }

    /// The time of last modification.
    pub fn get_mtime(&self) -> (number: i64)
        ensures
            number == self@.mtime,
            self@.get(Field::Mtime) == Value::Number(number),
    {
        self.mtime
    }

    /// The time of last status change.
    pub fn get_ctime(&self) -> (number: i64)
        ensures
            number == self@.ctime,
            self@.get(Field::Ctime) == Value::Number(number),
    {
        self.ctime
    }

    /// The time of creation.
    pub fn get_crtime(&self) -> (number: i64)
        ensures
            number == self@.crtime,
            self@.get(Field::Crtime) == Value::Number(number),
    {
        self.crtime
    }

    /// The text of the line, one `|` between each two fields and a newline
    /// at the end.
    pub fn to_string(&self) -> (text: String)
        ensures
            text@ == self@.text(),
    {
        let mut text = String::new();
        text.append(self.md5.as_str());
        push_separator(&mut text);
        text.append(self.name.as_str());
        push_separator(&mut text);
        text.append(self.inode.as_str());
        push_separator(&mut text);
        text.append(self.mode_as_string.as_str());
        push_separator(&mut text);
        push_decimal(&mut text, self.uid);
        push_separator(&mut text);
        push_decimal(&mut text, self.gid);
        push_separator(&mut text);
        push_decimal(&mut text, self.size);
        push_separator(&mut text);
        push_decimal(&mut text, self.atime);
        push_separator(&mut text);
        push_decimal(&mut text, self.mtime);
        push_separator(&mut text);
        push_decimal(&mut text, self.ctime);
        push_separator(&mut text);
        push_decimal(&mut text, self.crtime);
        proof {
            reveal_strlit("\n");
        }
        text.append("\n");
        text
    }
}

} // verus!
