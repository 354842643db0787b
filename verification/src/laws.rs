//! What holds of every line: how its fields answer to what was written into
//! them, and the shape of its text.

use crate::chars::{
    lemma_occurrences_concat, lemma_occurrences_single, lemma_occurrences_zero,
    lemma_split_append, lemma_split_whole, occurrences, split,
};
use crate::decimal::{decimal_text, is_digit, lemma_decimal_text, lemma_decimal_text_injective};
use crate::model::{Field, LineView, Update, Value};
use vstd::prelude::*;

verus! {

/// A line made of eleven values holds each of them in its field.
pub proof fn lemma_fields_read_back(
    md5: Seq<char>,
    name: Seq<char>,
    inode: Seq<char>,
    mode_as_string: Seq<char>,
    uid: i64,
    gid: i64,
    size: i64,
    atime: i64,
    mtime: i64,
    ctime: i64,
    crtime: i64,
)
    ensures
        ({
            let line = LineView {
                md5,
                name,
                inode,
                mode_as_string,
                uid,
                gid,
                size,
                atime,
                mtime,
                ctime,
                crtime,
            };
            &&& line.get(Field::Md5) == Value::Text(md5)
            &&& line.get(Field::Name) == Value::Text(name)
            &&& line.get(Field::Inode) == Value::Text(inode)
            &&& line.get(Field::Mode) == Value::Text(mode_as_string)
            &&& line.get(Field::Uid) == Value::Number(uid)
            &&& line.get(Field::Gid) == Value::Number(gid)
            &&& line.get(Field::Size) == Value::Number(size)
            &&& line.get(Field::Atime) == Value::Number(atime)
            &&& line.get(Field::Mtime) == Value::Number(mtime)
            &&& line.get(Field::Ctime) == Value::Number(ctime)
            &&& line.get(Field::Crtime) == Value::Number(crtime)
        }),
{
}

/// After an update its field holds what was written, and each other field
/// holds what it held before.
pub proof fn lemma_update_reads_back(line: LineView, u: Update)
    ensures
        line.apply(u).get(u.field()) == u.value(),
        forall|f: Field| f != u.field() ==> #[trigger] line.apply(u).get(f) == line.get(f),
{
}

/// An update made twice is the update made once, and of two updates of one
/// field the later one stands.
pub proof fn lemma_update_overwrites(line: LineView, first: Update, second: Update)
    requires
        first.field() == second.field(),
    ensures
        line.apply(first).apply(second) == line.apply(second),
        line.apply(second).apply(second) == line.apply(second),
{
}

/// Updates of two different fields give the same line in either order, and
/// that line holds both values.
pub proof fn lemma_updates_commute(line: LineView, a: Update, b: Update)
    requires
        a.field() != b.field(),
    ensures
        line.apply(a).apply(b) == line.apply(b).apply(a),
        line.apply(a).apply(b).get(a.field()) == a.value(),
        line.apply(a).apply(b).get(b.field()) == b.value(),
        forall|f: Field|
            f != a.field() && f != b.field() ==> #[trigger] line.apply(a).apply(b).get(f)
                == line.get(f),
{
}

/// Whether none of the four text fields of the line holds a `|`.
pub open spec fn separator_free(line: LineView) -> bool {
    &&& !line.md5.contains('|')
    &&& !line.name.contains('|')
    &&& !line.inode.contains('|')
    &&& !line.mode_as_string.contains('|')
}

/// The text of a number holds no character but digits and the minus sign.
pub proof fn lemma_number_holds_no_other(i: int, c: char)
    requires
        !is_digit(c),
        c != '-',
    ensures
        occurrences(decimal_text(i), c) == 0,
{
    lemma_decimal_text(i);
    lemma_occurrences_zero(decimal_text(i), c);
    if decimal_text(i).contains(c) {
        let k = choose|k: int| 0 <= k < decimal_text(i).len() && decimal_text(i)[k] == c;
        assert(is_digit(decimal_text(i)[k]) || k == 0);
    }
}

/// How often a character that is neither a digit nor the minus sign stands
/// in the text of a line: as often as in the four text fields, and once
/// more for each `|` between two fields and for the newline at the end.
pub proof fn lemma_occurrences_in_text(line: LineView, c: char)
    requires
        !is_digit(c),
        c != '-',
    ensures
        occurrences(line.text(), c) == occurrences(line.md5, c) + occurrences(line.name, c)
            + occurrences(line.inode, c) + occurrences(line.mode_as_string, c) + (if c == '|' {
            10nat
        } else {
            0nat
        }) + (if c == '\n' {
            1nat
        } else {
            0nat
        }),
{
    let bar = seq!['|'];
    let t0 = line.md5;
    let t1 = t0 + bar;
    let t2 = t1 + line.name;
    let t3 = t2 + bar;
    let t4 = t3 + line.inode;
    let t5 = t4 + bar;
    let t6 = t5 + line.mode_as_string;
    let t7 = t6 + bar;
    let t8 = t7 + decimal_text(line.uid as int);
    let t9 = t8 + bar;
    let t10 = t9 + decimal_text(line.gid as int);
    let t11 = t10 + bar;
    let t12 = t11 + decimal_text(line.size as int);
    let t13 = t12 + bar;
    let t14 = t13 + decimal_text(line.atime as int);
    let t15 = t14 + bar;
    let t16 = t15 + decimal_text(line.mtime as int);
    let t17 = t16 + bar;
    let t18 = t17 + decimal_text(line.ctime as int);
    let t19 = t18 + bar;
    let t20 = t19 + decimal_text(line.crtime as int);
    assert(line.text() == t20 + seq!['\n']);
    lemma_occurrences_single('|', c);
    lemma_occurrences_single('\n', c);
    lemma_number_holds_no_other(line.uid as int, c);
    lemma_number_holds_no_other(line.gid as int, c);
    lemma_number_holds_no_other(line.size as int, c);
    lemma_number_holds_no_other(line.atime as int, c);
    lemma_number_holds_no_other(line.mtime as int, c);
    lemma_number_holds_no_other(line.ctime as int, c);
    lemma_number_holds_no_other(line.crtime as int, c);
    lemma_occurrences_concat(t0, bar, c);
    lemma_occurrences_concat(t1, line.name, c);
    lemma_occurrences_concat(t2, bar, c);
    lemma_occurrences_concat(t3, line.inode, c);
    lemma_occurrences_concat(t4, bar, c);
    lemma_occurrences_concat(t5, line.mode_as_string, c);
    lemma_occurrences_concat(t6, bar, c);
    lemma_occurrences_concat(t7, decimal_text(line.uid as int), c);
    lemma_occurrences_concat(t8, bar, c);
    lemma_occurrences_concat(t9, decimal_text(line.gid as int), c);
    lemma_occurrences_concat(t10, bar, c);
    lemma_occurrences_concat(t11, decimal_text(line.size as int), c);
    lemma_occurrences_concat(t12, bar, c);
    lemma_occurrences_concat(t13, decimal_text(line.atime as int), c);
    lemma_occurrences_concat(t14, bar, c);
    lemma_occurrences_concat(t15, decimal_text(line.mtime as int), c);
    lemma_occurrences_concat(t16, bar, c);
    lemma_occurrences_concat(t17, decimal_text(line.ctime as int), c);
    lemma_occurrences_concat(t18, bar, c);
    lemma_occurrences_concat(t19, decimal_text(line.crtime as int), c);
    lemma_occurrences_concat(t20, seq!['\n'], c);
}

/// The text of a line whose text fields hold no `|` holds exactly ten of
/// them: the ones between its eleven fields.
pub proof fn lemma_ten_separators(line: LineView)
    requires
        separator_free(line),
    ensures
        occurrences(line.text(), '|') == 10,
{
    lemma_occurrences_in_text(line, '|');
    lemma_occurrences_zero(line.md5, '|');
    lemma_occurrences_zero(line.name, '|');
    lemma_occurrences_zero(line.inode, '|');
    lemma_occurrences_zero(line.mode_as_string, '|');
}

/// The text of a line ends with a newline, and with one only: the
/// character before it is the last digit of the last field.
pub proof fn lemma_ends_with_one_newline(line: LineView)
    ensures
        line.text().len() >= 2,
        line.text().last() == '\n',
        is_digit(line.text()[line.text().len() - 2]),
        line.text()[line.text().len() - 2] != '\n',
{
    let last_field = decimal_text(line.crtime as int);
    lemma_decimal_text(line.crtime as int);
    assert(line.text()[line.text().len() - 2] == last_field.last());
}

/// The text of a line whose text fields hold no newline holds exactly one:
/// the one at its end.
pub proof fn lemma_one_newline(line: LineView)
    requires
        !line.md5.contains('\n'),
        !line.name.contains('\n'),
        !line.inode.contains('\n'),
        !line.mode_as_string.contains('\n'),
    ensures
        occurrences(line.text(), '\n') == 1,
        line.text().last() == '\n',
{
    lemma_occurrences_in_text(line, '\n');
    lemma_occurrences_zero(line.md5, '\n');
    lemma_occurrences_zero(line.name, '\n');
    lemma_occurrences_zero(line.inode, '\n');
    lemma_occurrences_zero(line.mode_as_string, '\n');
}

/// The text of a number holds no `|`.
proof fn lemma_number_holds_no_separator(i: int)
    ensures
        !decimal_text(i).contains('|'),
{
    lemma_number_holds_no_other(i, '|');
    lemma_occurrences_zero(decimal_text(i), '|');
}

/// The text of a line whose text fields hold no `|`, cut at each `|` once
/// the newline is taken off, gives back the eleven fields in their order.
pub proof fn lemma_text_splits_into_fields(line: LineView)
    requires
        separator_free(line),
    ensures
        split(line.text().drop_last(), '|') == line.fields(),
        line.fields().len() == 11,
{
    let uid = decimal_text(line.uid as int);
    let gid = decimal_text(line.gid as int);
    let size = decimal_text(line.size as int);
    let atime = decimal_text(line.atime as int);
    let mtime = decimal_text(line.mtime as int);
    let ctime = decimal_text(line.ctime as int);
    let crtime = decimal_text(line.crtime as int);
    lemma_number_holds_no_separator(line.uid as int);
    lemma_number_holds_no_separator(line.gid as int);
    lemma_number_holds_no_separator(line.size as int);
    lemma_number_holds_no_separator(line.atime as int);
    lemma_number_holds_no_separator(line.mtime as int);
    lemma_number_holds_no_separator(line.ctime as int);
    lemma_number_holds_no_separator(line.crtime as int);
    let bar = seq!['|'];
    let t0 = line.md5;
    let t1 = t0 + bar + line.name;
    let t2 = t1 + bar + line.inode;
    let t3 = t2 + bar + line.mode_as_string;
    let t4 = t3 + bar + uid;
    let t5 = t4 + bar + gid;
    let t6 = t5 + bar + size;
    let t7 = t6 + bar + atime;
    let t8 = t7 + bar + mtime;
    let t9 = t8 + bar + ctime;
    let t10 = t9 + bar + crtime;
    assert(line.text().drop_last() =~= t10);
    lemma_split_whole(t0, '|');
    lemma_split_append(t0, line.name, '|');
    lemma_split_append(t1, line.inode, '|');
    lemma_split_append(t2, line.mode_as_string, '|');
    lemma_split_append(t3, uid, '|');
    lemma_split_append(t4, gid, '|');
    lemma_split_append(t5, size, '|');
    lemma_split_append(t6, atime, '|');
    lemma_split_append(t7, mtime, '|');
    lemma_split_append(t8, ctime, '|');
    lemma_split_append(t9, crtime, '|');
    assert(split(t10, '|') =~= line.fields());
}

/// Two lines whose text fields hold no `|` and whose texts are the same
/// are the same line: the text loses nothing.
pub proof fn lemma_text_determines_line(a: LineView, b: LineView)
    requires
        separator_free(a),
        separator_free(b),
        a.text() == b.text(),
    ensures
        a == b,
{
    lemma_text_splits_into_fields(a);
    lemma_text_splits_into_fields(b);
    let fa = a.fields();
    let fb = b.fields();
    assert(fa == fb);
    assert(a.md5 == fa[0] && b.md5 == fb[0]);
    assert(a.name == fa[1] && b.name == fb[1]);
    assert(a.inode == fa[2] && b.inode == fb[2]);
    assert(a.mode_as_string == fa[3] && b.mode_as_string == fb[3]);
    assert(decimal_text(a.uid as int) == fa[4] && decimal_text(b.uid as int) == fb[4]);
    assert(decimal_text(a.gid as int) == fa[5] && decimal_text(b.gid as int) == fb[5]);
    assert(decimal_text(a.size as int) == fa[6] && decimal_text(b.size as int) == fb[6]);
    assert(decimal_text(a.atime as int) == fa[7] && decimal_text(b.atime as int) == fb[7]);
    assert(decimal_text(a.mtime as int) == fa[8] && decimal_text(b.mtime as int) == fb[8]);
    assert(decimal_text(a.ctime as int) == fa[9] && decimal_text(b.ctime as int) == fb[9]);
    assert(decimal_text(a.crtime as int) == fa[10] && decimal_text(b.crtime as int) == fb[10]);
    lemma_decimal_text_injective(a.uid as int, b.uid as int);
    lemma_decimal_text_injective(a.gid as int, b.gid as int);
    lemma_decimal_text_injective(a.size as int, b.size as int);
    lemma_decimal_text_injective(a.atime as int, b.atime as int);
    lemma_decimal_text_injective(a.mtime as int, b.mtime as int);
    lemma_decimal_text_injective(a.ctime as int, b.ctime as int);
    lemma_decimal_text_injective(a.crtime as int, b.crtime as int);
}

} // verus!
