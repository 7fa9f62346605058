//! The JSON text of a record: one object per line.
//!
//! A record is written as
//! `{"name":…,"size":…,"mode":…,"modified":…,"file_type":…}`, the fields in
//! this order and nothing between them. `name` and `modified` are JSON
//! strings, `size` is a decimal number, `mode` is `{"Mode":…}` with the bits
//! as a decimal number or `{"ReadOnly":…}` with `true` or `false`, and
//! `file_type` is the variant's name as a JSON string.

use vstd::prelude::*;
use vstd::string::StringExecFns;

use crate::stat::least::FileType;
use crate::stat::least::LeastStatJsonView;
use crate::stat::least::Permissions;

verus! {

/// The JSON string literal for `s`: `s` between double quotes, with the
/// characters escaped that JSON does not allow inside a string.
///
/// This names what `serde_json` computes. Nothing in this library says what
/// the literal is for a given string.
pub uninterp spec fn json_string_text(s: Seq<char>) -> Seq<char>;

/// Calls `serde_json::to_string` on a `str`.
///
/// Trusted: the result depends on the argument alone, so it is the value of
/// [`json_string_text`]; and it holds no line feed, because the serializer
/// writes every character below U+0020 as an escape sequence. Serializing a
/// `str` into memory has no way to fail, so the empty string that stands in
/// for a failure is never returned.
#[verifier::external_body]
pub(crate) fn json_string(s: &str) -> (text: String)
    ensures
        text@ == json_string_text(s@),
        !text@.contains('\n'),
{
    serde_json::to_string(s).unwrap_or_default()
}

/// The character for a decimal digit.
pub open spec fn digit_char(d: nat) -> char {
    if d == 0 {
        '0'
    } else if d == 1 {
        '1'
    } else if d == 2 {
        '2'
    } else if d == 3 {
        '3'
    } else if d == 4 {
        '4'
    } else if d == 5 {
        '5'
    } else if d == 6 {
        '6'
    } else if d == 7 {
        '7'
    } else if d == 8 {
        '8'
    } else {
        '9'
    }
}

/// A number in decimal digits, without sign or leading zeros.
pub open spec fn decimal_text(n: nat) -> Seq<char>
    decreases n,
{
    if n < 10 {
        seq![digit_char(n)]
    } else {
        decimal_text(n / 10).push(digit_char(n % 10))
    }
}

/// The digit that a character stands for.
pub open spec fn digit_value(c: char) -> nat {
    if c == '1' {
        1
    } else if c == '2' {
        2
    } else if c == '3' {
        3
    } else if c == '4' {
        4
    } else if c == '5' {
        5
    } else if c == '6' {
        6
    } else if c == '7' {
        7
    } else if c == '8' {
        8
    } else if c == '9' {
        9
    } else {
        0
    }
}

/// The number that a text of decimal digits stands for.
pub open spec fn decimal_value(s: Seq<char>) -> nat
    decreases s.len(),
{
    if s.len() == 0 {
        0
    } else {
        decimal_value(s.drop_last()) * 10 + digit_value(s.last())
    }
}

/// `true` or `false`.
pub open spec fn bool_text(b: bool) -> Seq<char> {
    if b {
        "true"@
    } else {
        "false"@
    }
}

/// The JSON text of permissions: an object whose one key names the variant.
pub open spec fn permissions_text(p: Permissions) -> Seq<char> {
    match p {
        Permissions::ReadOnly(flag) => "{\"ReadOnly\":"@ + bool_text(flag) + "}"@,
        Permissions::Mode(bits) => "{\"Mode\":"@ + decimal_text(bits as nat) + "}"@,
    }
}

/// The JSON text of a file type: the variant's name as a string.
pub open spec fn file_type_text(t: FileType) -> Seq<char> {
    match t {
        FileType::Unspecified => "\"Unspecified\""@,
        FileType::Regular => "\"Regular\""@,
        FileType::Symlink => "\"Symlink\""@,
        FileType::Character => "\"Character\""@,
        FileType::Block => "\"Block\""@,
        FileType::Directory => "\"Directory\""@,
        FileType::Fifo => "\"Fifo\""@,
        FileType::Socket => "\"Socket\""@,
        FileType::Unknown => "\"Unknown\""@,
    }
}

/// The JSON object of a record whose `name` and `modified` are already
/// written as JSON strings.
pub open spec fn record_frame(
    name_json: Seq<char>,
    size: u64,
    mode: Permissions,
    modified_json: Seq<char>,
    file_type: FileType,
) -> Seq<char> {
    "{\"name\":"@ + name_json + ",\"size\":"@ + decimal_text(size as nat) + ",\"mode\":"@
        + permissions_text(mode) + ",\"modified\":"@ + modified_json + ",\"file_type\":"@
        + file_type_text(file_type) + "}"@
}

/// The JSON object of a record.
pub open spec fn record_text(json: LeastStatJsonView) -> Seq<char> {
    record_frame(
        json_string_text(json.name),
        json.size,
        json.mode,
        json_string_text(json.modified),
        json.file_type,
    )
}

/// The line that is written for a record: its JSON object and a line feed.
pub open spec fn record_line(json: LeastStatJsonView) -> Seq<char> {
    record_text(json).push('\n')
}

/// The number of line feeds in a text.
pub open spec fn line_feeds(s: Seq<char>) -> nat
    decreases s.len(),
{
    if s.len() == 0 {
        0
    } else {
        line_feeds(s.drop_last()) + if s.last() == '\n' {
            1nat
        } else {
            0nat
        }
    }
}

/// The line feeds of two texts add up when the texts are joined.
pub proof fn lemma_line_feeds_concat(a: Seq<char>, b: Seq<char>)
    ensures
        line_feeds(a + b) == line_feeds(a) + line_feeds(b),
    decreases b.len(),
{
    if b.len() == 0 {
        assert(a + b =~= a);
    } else {
        assert((a + b).drop_last() =~= a + b.drop_last());
        lemma_line_feeds_concat(a, b.drop_last());
    }
}

/// A text counts no line feed exactly if it holds none.
pub proof fn lemma_line_feeds_none(s: Seq<char>)
    ensures
        line_feeds(s) == 0 <==> !s.contains('\n'),
    decreases s.len(),
{
    if s.len() > 0 {
        lemma_line_feeds_none(s.drop_last());
        if s.last() == '\n' {
            assert(s[s.len() - 1] == '\n');
        } else if s.contains('\n') {
            let i = choose|i: int| 0 <= i < s.len() && s[i] == '\n';
            assert(s.drop_last()[i] == '\n');
        } else {
            assert forall|i: int| 0 <= i < s.drop_last().len() implies s.drop_last()[i]
                != '\n' by {
                assert(s[i] != '\n');
            }
        }
    }
}

/// Joining two texts without a line feed gives a text without one.
pub proof fn lemma_concat_one_line(a: Seq<char>, b: Seq<char>)
    requires
        !a.contains('\n'),
        !b.contains('\n'),
    ensures
        !(a + b).contains('\n'),
{
    lemma_line_feeds_none(a);
    lemma_line_feeds_none(b);
    lemma_line_feeds_concat(a, b);
    lemma_line_feeds_none(a + b);
}

/// A decimal number holds no line feed.
pub proof fn lemma_decimal_one_line(n: nat)
    ensures
        !decimal_text(n).contains('\n'),
    decreases n,
{
    if n >= 10 {
        lemma_decimal_one_line(n / 10);
        lemma_concat_one_line(decimal_text(n / 10), seq![digit_char(n % 10)]);
        assert(decimal_text(n / 10).push(digit_char(n % 10)) =~= decimal_text(n / 10) + seq![
            digit_char(n % 10),
        ]);
    }
}

/// The JSON text of permissions holds no line feed.
pub proof fn lemma_permissions_one_line(p: Permissions)
    ensures
        !permissions_text(p).contains('\n'),
{
    reveal_strlit("{\"ReadOnly\":");
    reveal_strlit("{\"Mode\":");
    reveal_strlit("true");
    reveal_strlit("false");
    reveal_strlit("}");
    match p {
        Permissions::ReadOnly(flag) => {
            lemma_concat_one_line("{\"ReadOnly\":"@, bool_text(flag));
            lemma_concat_one_line("{\"ReadOnly\":"@ + bool_text(flag), "}"@);
        },
        Permissions::Mode(bits) => {
            lemma_decimal_one_line(bits as nat);
            lemma_concat_one_line("{\"Mode\":"@, decimal_text(bits as nat));
            lemma_concat_one_line("{\"Mode\":"@ + decimal_text(bits as nat), "}"@);
        },
    }
}

/// The JSON text of a file type holds no line feed.
pub proof fn lemma_file_type_one_line(t: FileType)
    ensures
        !file_type_text(t).contains('\n'),
{
    reveal_strlit("\"Unspecified\"");
    reveal_strlit("\"Regular\"");
    reveal_strlit("\"Symlink\"");
    reveal_strlit("\"Character\"");
    reveal_strlit("\"Block\"");
    reveal_strlit("\"Directory\"");
    reveal_strlit("\"Fifo\"");
    reveal_strlit("\"Socket\"");
    reveal_strlit("\"Unknown\"");
}

/// A record whose two JSON strings hold no line feed is laid out without one.
pub proof fn lemma_record_frame_one_line(
    name_json: Seq<char>,
    size: u64,
    mode: Permissions,
    modified_json: Seq<char>,
    file_type: FileType,
)
    requires
        !name_json.contains('\n'),
        !modified_json.contains('\n'),
    ensures
        !record_frame(name_json, size, mode, modified_json, file_type).contains('\n'),
{
    reveal_strlit("{\"name\":");
    reveal_strlit(",\"size\":");
    reveal_strlit(",\"mode\":");
    reveal_strlit(",\"modified\":");
    reveal_strlit(",\"file_type\":");
    reveal_strlit("}");
    lemma_decimal_one_line(size as nat);
    lemma_permissions_one_line(mode);
    lemma_file_type_one_line(file_type);
    let t1 = "{\"name\":"@ + name_json;
    lemma_concat_one_line("{\"name\":"@, name_json);
    let t2 = t1 + ",\"size\":"@;
    lemma_concat_one_line(t1, ",\"size\":"@);
    let t3 = t2 + decimal_text(size as nat);
    lemma_concat_one_line(t2, decimal_text(size as nat));
    let t4 = t3 + ",\"mode\":"@;
    lemma_concat_one_line(t3, ",\"mode\":"@);
    let t5 = t4 + permissions_text(mode);
    lemma_concat_one_line(t4, permissions_text(mode));
    let t6 = t5 + ",\"modified\":"@;
    lemma_concat_one_line(t5, ",\"modified\":"@);
    let t7 = t6 + modified_json;
    lemma_concat_one_line(t6, modified_json);
    let t8 = t7 + ",\"file_type\":"@;
    lemma_concat_one_line(t7, ",\"file_type\":"@);
    let t9 = t8 + file_type_text(file_type);
    lemma_concat_one_line(t8, file_type_text(file_type));
    lemma_concat_one_line(t9, "}"@);
}

fn digit_str(d: u64) -> (s: &'static str)
    requires
        d < 10,
    ensures
        s@ == seq![digit_char(d as nat)],
{
    proof {
        reveal_strlit("0");
        reveal_strlit("1");
        reveal_strlit("2");
        reveal_strlit("3");
        reveal_strlit("4");
        reveal_strlit("5");
        reveal_strlit("6");
        reveal_strlit("7");
        reveal_strlit("8");
        reveal_strlit("9");
    }
    let s = if d == 0 {
        "0"
    } else if d == 1 {
        "1"
    } else if d == 2 {
        "2"
    } else if d == 3 {
        "3"
    } else if d == 4 {
        "4"
    } else if d == 5 {
        "5"
    } else if d == 6 {
        "6"
    } else if d == 7 {
        "7"
    } else if d == 8 {
        "8"
    } else {
        "9"
    };
    assert(s@ =~= seq![digit_char(d as nat)]);
    s
}

/// Appends `n` in decimal digits.
pub fn push_decimal(out: &mut String, n: u64)
    ensures
        final(out)@ == old(out)@ + decimal_text(n as nat),
    decreases n,
{
    if n >= 10 {
        push_decimal(out, n / 10);
    }
    out.append(digit_str(n % 10));
    assert(final(out)@ =~= old(out)@ + decimal_text(n as nat));
}

/// Appends the JSON text of permissions.
pub fn push_permissions(out: &mut String, mode: &Permissions)
    ensures
        final(out)@ == old(out)@ + permissions_text(*mode),
{
    match mode {
        Permissions::ReadOnly(flag) => {
            out.append("{\"ReadOnly\":");
            if *flag {
                out.append("true");
            } else {
                out.append("false");
            }
            out.append("}");
        },
        Permissions::Mode(bits) => {
            out.append("{\"Mode\":");
            push_decimal(out, *bits as u64);
            out.append("}");
        },
    }
    assert(final(out)@ =~= old(out)@ + permissions_text(*mode));
}

/// The JSON text of a file type.
pub fn file_type_str(file_type: &FileType) -> (s: &'static str)
    ensures
        s@ == file_type_text(*file_type),
{
    match file_type {
        FileType::Unspecified => "\"Unspecified\"",
        FileType::Regular => "\"Regular\"",
        FileType::Symlink => "\"Symlink\"",
        FileType::Character => "\"Character\"",
        FileType::Block => "\"Block\"",
        FileType::Directory => "\"Directory\"",
        FileType::Fifo => "\"Fifo\"",
        FileType::Socket => "\"Socket\"",
        FileType::Unknown => "\"Unknown\"",
    }
}

/// Lays out a record as a JSON object, given its `name` and `modified` as
/// JSON strings.
pub fn frame_record(
    name_json: &str,
    size: u64,
    mode: &Permissions,
    modified_json: &str,
    file_type: &FileType,
) -> (text: String)
    ensures
        text@ == record_frame(name_json@, size, *mode, modified_json@, *file_type),
        !name_json@.contains('\n') && !modified_json@.contains('\n') ==> !text@.contains('\n'),
{
    proof {
        if !name_json@.contains('\n') && !modified_json@.contains('\n') {
            lemma_record_frame_one_line(name_json@, size, *mode, modified_json@, *file_type);
        }
    }
    let mut text = String::from_str("{\"name\":");
    text.append(name_json);
    text.append(",\"size\":");
    push_decimal(&mut text, size);
    text.append(",\"mode\":");
    push_permissions(&mut text, mode);
    text.append(",\"modified\":");
    text.append(modified_json);
    text.append(",\"file_type\":");
    text.append(file_type_str(file_type));
    text.append("}");
    text
}

} // verus!
