//! What holds of the records and of a run over many input lines.

use vstd::prelude::*;

use crate::stat::error::message_text;
use crate::stat::error::StatErrorView;
use crate::stat::json::bool_text;
use crate::stat::json::decimal_text;
use crate::stat::json::decimal_value;
use crate::stat::json::digit_char;
use crate::stat::json::file_type_text;
use crate::stat::json::json_string_text;
use crate::stat::json::permissions_text;
use crate::stat::json::record_frame;
use crate::stat::json::record_line;
use crate::stat::least::entry_json;
use crate::stat::least::converted;
use crate::stat::least::file_type_of;
use crate::stat::least::json_from;
use crate::stat::least::lemma_first_failure;
use crate::stat::least::lemma_lines_text_concat;
use crate::stat::least::lemma_records_before_failure;
use crate::stat::least::lines_text;
use crate::stat::least::records_before_failure;
use crate::stat::least::run_text;
use crate::stat::least::run_verdict;
use crate::stat::least::stat_of;
use crate::stat::least::FileType;
use crate::stat::least::LeastStatJsonView;
use crate::stat::least::LeastStatView;
use crate::stat::least::LookupView;
use crate::stat::least::Permissions;
use crate::stat::probe::FileTypeProbe;
use crate::stat::probe::Metadata;
use crate::stat::rfc3339::rfc3339_text;

verus! {

/// Every probe resolves to a file type, and never to `Unspecified`: where no
/// predicate holds, the type is `Unknown`.
pub proof fn law_file_type_is_resolved(p: FileTypeProbe)
    ensures
        file_type_of(p) != FileType::Unspecified,
        file_type_of(p) == FileType::Unknown <==> !p.is_dir && !p.is_file && !p.is_symlink
            && !p.is_block_device && !p.is_char_device && !p.is_fifo && !p.is_socket,
{
}

/// A directory is a directory, whatever else the probe says of it.
pub proof fn law_directory_comes_first(p: FileTypeProbe)
    requires
        p.is_dir,
    ensures
        file_type_of(p) == FileType::Directory,
{
}

/// A platform without devices, FIFOs and sockets reaches four file types
/// only: directory, regular, symlink and unknown.
pub proof fn law_file_types_without_devices(p: FileTypeProbe)
    requires
        !p.is_block_device,
        !p.is_char_device,
        !p.is_fifo,
        !p.is_socket,
    ensures
        file_type_of(p) == FileType::Directory || file_type_of(p) == FileType::Regular
            || file_type_of(p) == FileType::Symlink || file_type_of(p) == FileType::Unknown,
{
}

/// A record is produced exactly for a path that is text and not empty, whose
/// query succeeded and supplied a modification time. The record then has the
/// path as its name, unchanged, and the reported length as its size; and a
/// path that is a directory has the file type `Directory`.
pub proof fn law_record_carries_report(path: Seq<char>, query: Result<Metadata, Seq<char>>)
    ensures
        stat_of(Some(path), query) is Ok <==> path.len() > 0 && query is Ok
            && query->Ok_0.modified is Some,
        stat_of(Some(path), query) matches Ok(least) ==> least.name == path && least.size
            == query->Ok_0.len && least.modified == query->Ok_0.modified->Some_0 && (
        query->Ok_0.file_type.is_dir ==> least.file_type == FileType::Directory),
        stat_of(Some(path), query) matches Ok(least) ==> least.name.len() > 0,
{
}

/// The serialization form differs from the record in `modified` alone.
/// Where a record can be converted, the form that every record has is the
/// converted one; where it cannot, that form has an empty `modified`.
pub proof fn law_json_form_of_record(least: LeastStatView)
    ensures
        json_from(least).name == least.name,
        json_from(least).size == least.size,
        json_from(least).mode == least.mode,
        json_from(least).file_type == least.file_type,
        converted(least) matches Ok(json) ==> json_from(least) == json,
        converted(least) is Err ==> json_from(least).modified == Seq::<char>::empty(),
        converted(least) is Ok <==> rfc3339_text(least.modified.unix_nanos as int) is Some,
{
}

/// An input line whose path was looked up comes to a record exactly if the
/// path is not empty, the query succeeded and supplied a modification time,
/// and that time has an RFC 3339 text. The one line that is then written
/// holds the path, as it was given, as the JSON string under `name`.
pub proof fn law_line_holds_name_verbatim(lookup: LookupView)
    ensures
        entry_json(Ok(lookup)) is Ok <==> lookup.name.len() > 0 && lookup.query is Ok
            && lookup.query->Ok_0.modified is Some && rfc3339_text(
            lookup.query->Ok_0.modified->Some_0.unix_nanos as int,
        ) is Some,
        entry_json(Ok(lookup)) matches Ok(json) ==> json.name == lookup.name && record_line(json)
            == record_frame(
            json_string_text(lookup.name),
            json.size,
            json.mode,
            json_string_text(json.modified),
            json.file_type,
        ).push('\n'),
        entry_json(Ok(lookup)) matches Ok(json) ==> records_before_failure(seq![Ok(lookup)]) == 1
            && run_text(seq![Ok(lookup)]) == record_line(json) && run_verdict(seq![Ok(lookup)])
            == Ok::<(), StatErrorView>(()),
{
    let entries = seq![Ok::<LookupView, Seq<char>>(lookup)];
    if entry_json(Ok(lookup)) is Ok {
        lemma_records_before_failure(entries, 1);
        assert(entries.take(1) =~= entries);
        assert(entries.drop_last() =~= Seq::empty());
        assert(lines_text(entries.drop_last()) =~= Seq::<char>::empty());
        assert(lines_text(entries) =~= record_line(entry_json(Ok(lookup))->Ok_0));
    }
}

/// A run in which entry `k` fails and every entry in front of it comes to a
/// record writes the lines of those `k` entries and no other, and ends with
/// the failure of entry `k`. What follows entry `k` does not count.
pub proof fn law_run_stops_at_first_failure(
    entries: Seq<Result<LookupView, Seq<char>>>,
    k: int,
)
    requires
        0 <= k < entries.len(),
        forall|i: int| 0 <= i < k ==> entry_json(#[trigger] entries[i]) is Ok,
        entry_json(entries[k]) is Err,
    ensures
        records_before_failure(entries) == k,
        run_text(entries) == lines_text(entries.take(k)),
        run_verdict(entries) == Err::<(), StatErrorView>(entry_json(entries[k])->Err_0),
        run_text(entries) == run_text(entries.take(k + 1)),
        run_verdict(entries) == run_verdict(entries.take(k + 1)),
{
    lemma_records_before_failure(entries, k);
    let head = entries.take(k + 1);
    assert forall|i: int| 0 <= i < k implies entry_json(#[trigger] head[i]) is Ok by {
        assert(head[i] == entries[i]);
    }
    lemma_records_before_failure(head, k);
    assert(head.take(k) =~= entries.take(k));
}

/// A path whose query failed fails its line, with an error that holds the
/// path and the reason of the query; nothing is written for such a line.
pub proof fn law_failed_query_fails_line(name: Seq<char>, reason: Seq<char>)
    ensures
        entry_json(Ok(LookupView { name, query: Err(reason) })) == Err::<
            LeastStatJsonView,
            StatErrorView,
        >(StatErrorView::Query { path: name, reason }),
{
}

/// A run in which no entry fails writes the line of every entry and ends
/// well.
pub proof fn law_run_without_failure(entries: Seq<Result<LookupView, Seq<char>>>)
    requires
        forall|i: int| 0 <= i < entries.len() ==> entry_json(#[trigger] entries[i]) is Ok,
    ensures
        records_before_failure(entries) == entries.len(),
        run_text(entries) == lines_text(entries),
        run_verdict(entries) == Ok::<(), StatErrorView>(()),
{
    lemma_records_before_failure(entries, entries.len() as int);
    assert(entries.take(entries.len() as int) =~= entries);
}

/// A run may be made in parts. If the run over the first part ends well, the
/// run over the whole writes what the two parts write, one after the other,
/// and ends as the second part does; if it fails, the whole writes and ends
/// as the first part does, and the second part does not count.
pub proof fn law_run_in_parts(
    first: Seq<Result<LookupView, Seq<char>>>,
    second: Seq<Result<LookupView, Seq<char>>>,
)
    ensures
        run_verdict(first) is Ok ==> run_text(first + second) == run_text(first) + run_text(second)
            && run_verdict(first + second) == run_verdict(second) && records_before_failure(
            first + second,
        ) == first.len() + records_before_failure(second),
        run_verdict(first) is Err ==> run_text(first + second) == run_text(first) && run_verdict(
            first + second,
        ) == run_verdict(first) && records_before_failure(first + second)
            == records_before_failure(first),
{
    let whole = first + second;
    lemma_first_failure(first);
    lemma_first_failure(second);
    let a = records_before_failure(first) as int;
    let b = records_before_failure(second) as int;
    if run_verdict(first) is Ok {
        let k = first.len() + b;
        assert forall|i: int| 0 <= i < k implies entry_json(#[trigger] whole[i]) is Ok by {
            if i < first.len() {
                assert(whole[i] == first[i]);
            } else {
                assert(whole[i] == second[i - first.len()]);
            }
        }
        if b < second.len() {
            assert(whole[k] == second[b]);
        }
        lemma_records_before_failure(whole, k);
        assert(whole.take(k) =~= first + second.take(b));
        lemma_lines_text_concat(first, second.take(b));
        assert(first.take(a) =~= first);
    } else {
        assert forall|i: int| 0 <= i < a implies entry_json(#[trigger] whole[i]) is Ok by {
            assert(whole[i] == first[i]);
        }
        assert(whole[a] == first[a]);
        lemma_records_before_failure(whole, a);
        assert(whole.take(a) =~= first.take(a));
    }
}

/// A run over no input writes nothing and ends well.
pub proof fn law_empty_input()
    ensures
        records_before_failure(Seq::<Result<LookupView, Seq<char>>>::empty()) == 0,
        run_text(Seq::<Result<LookupView, Seq<char>>>::empty()) == Seq::<char>::empty(),
        run_verdict(Seq::<Result<LookupView, Seq<char>>>::empty()) == Ok::<(), StatErrorView>(()),
{
    let none = Seq::<Result<LookupView, Seq<char>>>::empty();
    assert(none.take(0) =~= none);
}

/// Two runs over the same input write the same text and end the same way.
pub proof fn law_same_input_same_output(
    first: Seq<Result<LookupView, Seq<char>>>,
    second: Seq<Result<LookupView, Seq<char>>>,
)
    requires
        first.len() == second.len(),
        forall|i: int| 0 <= i < first.len() ==> first[i] == second[i],
    ensures
        records_before_failure(first) == records_before_failure(second),
        run_text(first) == run_text(second),
        run_verdict(first) == run_verdict(second),
{
    assert(first =~= second);
}

/// The message of a failed query begins with the path that was asked for.
pub proof fn law_query_message_names_path(path: Seq<char>, reason: Seq<char>)
    ensures
        path.is_prefix_of(message_text(StatErrorView::Query { path, reason })),
{
    let text = message_text(StatErrorView::Query { path, reason });
    assert(text.subrange(0, path.len() as int) =~= path);
}

/// The JSON text of a file type tells which variant it is.
pub proof fn law_file_type_text_tells_variant(a: FileType, b: FileType)
    requires
        file_type_text(a) == file_type_text(b),
    ensures
        a == b,
{
    reveal_strlit("\"Unspecified\"");
    reveal_strlit("\"Regular\"");
    reveal_strlit("\"Symlink\"");
    reveal_strlit("\"Character\"");
    reveal_strlit("\"Block\"");
    reveal_strlit("\"Directory\"");
    reveal_strlit("\"Fifo\"");
    reveal_strlit("\"Socket\"");
    reveal_strlit("\"Unknown\"");
    let s = file_type_text(a);
    let t = file_type_text(b);
    assert(s.len() == t.len());
    assert(s[1] == t[1]);
    assert(s[2] == t[2]);
}

/// Reading the decimal digits of a number gives the number back.
pub proof fn law_decimal_text_reads_back(n: nat)
    ensures
        decimal_value(decimal_text(n)) == n,
    decreases n,
{
    if n < 10 {
        assert(seq![digit_char(n)].drop_last() =~= Seq::<char>::empty());
        assert(decimal_value(Seq::<char>::empty()) == 0);
    } else {
        law_decimal_text_reads_back(n / 10);
        let text = decimal_text(n / 10).push(digit_char(n % 10));
        assert(text.drop_last() =~= decimal_text(n / 10));
        assert(text.last() == digit_char(n % 10));
    }
}

/// The JSON text of permissions tells which of the two shapes it is, and
/// which bits or which flag it holds.
pub proof fn law_permissions_text_tells_value(a: Permissions, b: Permissions)
    requires
        permissions_text(a) == permissions_text(b),
    ensures
        a == b,
{
    reveal_strlit("{\"ReadOnly\":");
    reveal_strlit("{\"Mode\":");
    reveal_strlit("true");
    reveal_strlit("false");
    reveal_strlit("}");
    let s = permissions_text(a);
    let t = permissions_text(b);
    assert(s[2] == t[2]);
    match (a, b) {
        (Permissions::Mode(x), Permissions::Mode(y)) => {
            let dx = decimal_text(x as nat);
            let dy = decimal_text(y as nat);
            assert(s.len() == 8 + dx.len() + 1);
            assert(t.len() == 8 + dy.len() + 1);
            assert(s.subrange(8, 8 + dx.len() as int) =~= dx);
            assert(t.subrange(8, 8 + dy.len() as int) =~= dy);
            law_decimal_text_reads_back(x as nat);
            law_decimal_text_reads_back(y as nat);
            assert(dx == dy);
            assert(x == y);
        },
        (Permissions::ReadOnly(x), Permissions::ReadOnly(y)) => {
            assert(s.len() == 12 + bool_text(x).len() + 1);
            assert(t.len() == 12 + bool_text(y).len() + 1);
            assert(x == y);
        },
        (Permissions::Mode(_), Permissions::ReadOnly(_)) => {
            assert(s[2] == 'M');
            assert(t[2] == 'R');
        },
        (Permissions::ReadOnly(_), Permissions::Mode(_)) => {
            assert(s[2] == 'R');
            assert(t[2] == 'M');
        },
    }
}

} // verus!
