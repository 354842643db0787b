//! The mathematical value of a body file line, and its text.

use crate::decimal::decimal_text;
use vstd::prelude::*;

verus! {

/// What a line holds: four text fields and seven numbers.
#[verifier::ext_equal]
pub struct LineView {
    /// MD5 digest as hexadecimal text, or `0` where it is unknown.
    pub md5: Seq<char>,
    /// Path or name of the object.
    pub name: Seq<char>,
    /// Inode identifier as text.
    pub inode: Seq<char>,
    /// Type and permissions, such as `r/rrwxr-xr-x`.
    pub mode_as_string: Seq<char>,
    /// Owner.
    pub uid: i64,
    /// Group.
    pub gid: i64,
    /// Size in bytes.
    pub size: i64,
    /// Time of last access as a UNIX timestamp, or `-1` where it is unknown.
    pub atime: i64,
    /// Time of last modification, likewise.
    pub mtime: i64,
    /// Time of last status change, likewise.
    pub ctime: i64,
    /// Time of creation, likewise.
    pub crtime: i64,
}

/// The eleven fields of a line, in the order in which they are written.
pub enum Field {
    Md5,
    Name,
    Inode,
    Mode,
    Uid,
    Gid,
    Size,
    Atime,
    Mtime,
    Ctime,
    Crtime,
}

/// What a field holds.
pub enum Value {
    Text(Seq<char>),
    Number(i64),
}

/// A new content for one field.
pub enum Update {
    Md5(Seq<char>),
    Name(Seq<char>),
    Inode(Seq<char>),
    Mode(Seq<char>),
    Uid(i64),
    Gid(i64),
    Size(i64),
    Atime(i64),
    Mtime(i64),
    Ctime(i64),
    Crtime(i64),
}

impl Update {
    /// The field that the update writes.
    pub open spec fn field(self) -> Field {
        match self {
            Update::Md5(_) => Field::Md5,
            Update::Name(_) => Field::Name,
            Update::Inode(_) => Field::Inode,
            Update::Mode(_) => Field::Mode,
            Update::Uid(_) => Field::Uid,
            Update::Gid(_) => Field::Gid,
            Update::Size(_) => Field::Size,
            Update::Atime(_) => Field::Atime,
            Update::Mtime(_) => Field::Mtime,
            Update::Ctime(_) => Field::Ctime,
            Update::Crtime(_) => Field::Crtime,
        }
    }

    /// What the update writes there.
    pub open spec fn value(self) -> Value {
        match self {
            Update::Md5(t) => Value::Text(t),
            Update::Name(t) => Value::Text(t),
            Update::Inode(t) => Value::Text(t),
            Update::Mode(t) => Value::Text(t),
            Update::Uid(n) => Value::Number(n),
            Update::Gid(n) => Value::Number(n),
            Update::Size(n) => Value::Number(n),
            Update::Atime(n) => Value::Number(n),
            Update::Mtime(n) => Value::Number(n),
            Update::Ctime(n) => Value::Number(n),
            Update::Crtime(n) => Value::Number(n),
        }
    }
}

impl LineView {
    /// What the field `f` holds.
    pub open spec fn get(self, f: Field) -> Value {
        match f {
            Field::Md5 => Value::Text(self.md5),
            Field::Name => Value::Text(self.name),
            Field::Inode => Value::Text(self.inode),
            Field::Mode => Value::Text(self.mode_as_string),
            Field::Uid => Value::Number(self.uid),
            Field::Gid => Value::Number(self.gid),
            Field::Size => Value::Number(self.size),
            Field::Atime => Value::Number(self.atime),
            Field::Mtime => Value::Number(self.mtime),
            Field::Ctime => Value::Number(self.ctime),
            Field::Crtime => Value::Number(self.crtime),
        }
    }

    /// The line with one field replaced and the other ten as they were.
    pub open spec fn apply(self, u: Update) -> LineView {
        match u {
            Update::Md5(t) => LineView { md5: t, ..self },
            Update::Name(t) => LineView { name: t, ..self },
            Update::Inode(t) => LineView { inode: t, ..self },
            Update::Mode(t) => LineView { mode_as_string: t, ..self },
            Update::Uid(n) => LineView { uid: n, ..self },
            Update::Gid(n) => LineView { gid: n, ..self },
            Update::Size(n) => LineView { size: n, ..self },
            Update::Atime(n) => LineView { atime: n, ..self },
            Update::Mtime(n) => LineView { mtime: n, ..self },
            Update::Ctime(n) => LineView { ctime: n, ..self },
            Update::Crtime(n) => LineView { crtime: n, ..self },
        }
    }

    /// The eleven fields as they are written: text fields as they are,
    /// numbers in base 10.
    pub open spec fn fields(self) -> Seq<Seq<char>> {
        seq![
            self.md5,
            self.name,
            self.inode,
            self.mode_as_string,
            decimal_text(self.uid as int),
            decimal_text(self.gid as int),
            decimal_text(self.size as int),
            decimal_text(self.atime as int),
            decimal_text(self.mtime as int),
            decimal_text(self.ctime as int),
            decimal_text(self.crtime as int),
        ]
    }

    /// The text of the line: the eleven fields in their order, a `|` between
    /// each two, and a newline at the end. Text fields stand as they are,
    /// numbers in base 10.
    pub open spec fn text(self) -> Seq<char> {
        self.md5 + seq!['|']
            + self.name + seq!['|']
            + self.inode + seq!['|']
            + self.mode_as_string + seq!['|']
            + decimal_text(self.uid as int) + seq!['|']
            + decimal_text(self.gid as int) + seq!['|']
            + decimal_text(self.size as int) + seq!['|']
            + decimal_text(self.atime as int) + seq!['|']
            + decimal_text(self.mtime as int) + seq!['|']
            + decimal_text(self.ctime as int) + seq!['|']
            + decimal_text(self.crtime as int) + seq!['\n']
    }
}

} // verus!
