//! The stat record, its parts, and the rules that derive them.

use vstd::prelude::*;
use vstd::std_specs::convert::FromSpecImpl;
use vstd::string::StrSliceExecFns;
use vstd::string::StringExecFns;

use crate::stat::error::StatError;
use crate::stat::error::StatErrorView;
use crate::stat::json::frame_record;
use crate::stat::json::json_string;
use crate::stat::json::lemma_line_feeds_concat;
use crate::stat::json::lemma_line_feeds_none;
use crate::stat::json::line_feeds;
use crate::stat::json::record_line;
use crate::stat::json::record_text;
use crate::stat::probe::FileTypeProbe;
use crate::stat::probe::Metadata;
use crate::stat::probe::PermissionsProbe;
use crate::stat::probe::Timestamp;
use crate::stat::rfc3339::format_rfc3339;
use crate::stat::rfc3339::rfc3339_text;

verus! {

/// The kind of a filesystem entry.
#[derive(Clone, Copy, Debug, PartialEq, Eq)]
pub enum FileType {
    Unspecified,
    /// Regular file.
    Regular,
    /// Symbolic link.
    Symlink,
    /// Character device.
    Character,
    /// Block device.
    Block,
    /// Directory.
    Directory,
    /// FIFO.
    Fifo,
    /// Socket.
    Socket,
    Unknown,
}

/// The file type that a probe resolves to: the first predicate that holds, in
/// the order directory, regular file, symbolic link, block device, character
/// device, FIFO, socket; `Unknown` when none holds.
pub open spec fn file_type_of(p: FileTypeProbe) -> FileType {
    if p.is_dir {
        FileType::Directory
    } else if p.is_file {
        FileType::Regular
    } else if p.is_symlink {
        FileType::Symlink
    } else if p.is_block_device {
        FileType::Block
    } else if p.is_char_device {
        FileType::Character
    } else if p.is_fifo {
        FileType::Fifo
    } else if p.is_socket {
        FileType::Socket
    } else {
        FileType::Unknown
    }
}

impl FromSpecImpl<FileTypeProbe> for FileType {
    open spec fn obeys_from_spec() -> bool {
        true
    }

    open spec fn from_spec(p: FileTypeProbe) -> FileType {
        file_type_of(p)
    }
}

impl From<FileTypeProbe> for FileType {
    fn from(f: FileTypeProbe) -> (t: FileType) {
        if f.is_dir {
            return FileType::Directory;
        }
        if f.is_file {
            return FileType::Regular;
        }
        if f.is_symlink {
            return FileType::Symlink;
        }
        if f.is_block_device {
            return FileType::Block;
        }
        if f.is_char_device {
            return FileType::Character;
        }
        if f.is_fifo {
            return FileType::Fifo;
        }
        if f.is_socket {
            return FileType::Socket;
        }
        FileType::Unknown
    }
}

/// An entry's permissions, in the one of two shapes that the platform has.
#[derive(Clone, Copy, Debug, PartialEq, Eq)]
pub enum Permissions {
    ReadOnly(bool),
    Mode(u32),
}

/// The permissions that a probe resolves to: the raw mode bits where the
/// platform has them, the read-only flag where it has not.
pub open spec fn permissions_of(p: PermissionsProbe) -> Permissions {
    match p.mode {
        Some(bits) => Permissions::Mode(bits),
        None => Permissions::ReadOnly(p.readonly),
    }
}

impl FromSpecImpl<PermissionsProbe> for Permissions {
    open spec fn obeys_from_spec() -> bool {
        true
    }

    open spec fn from_spec(p: PermissionsProbe) -> Permissions {
        permissions_of(p)
    }
}

impl From<PermissionsProbe> for Permissions {
    fn from(p: PermissionsProbe) -> (m: Permissions) {
        match p.mode {
            Some(bits) => Permissions::Mode(bits),
            None => Permissions::ReadOnly(p.readonly),
        }
    }
}

/// The metadata of one path, as the filesystem reported it.
#[derive(Clone, Debug, PartialEq, Eq)]
pub struct LeastStat {
    /// The path, exactly as it was given.
    pub name: String,
    pub size: u64,
    pub mode: Permissions,
    pub modified: Timestamp,
    pub file_type: FileType,
}

/// A [`LeastStat`] with its name as a sequence of characters.
pub struct LeastStatView {
    pub name: Seq<char>,
    pub size: u64,
    pub mode: Permissions,
    pub modified: Timestamp,
    pub file_type: FileType,
}

impl View for LeastStat {
    type V = LeastStatView;

    open spec fn view(&self) -> LeastStatView {
        LeastStatView {
            name: self.name@,
            size: self.size,
            mode: self.mode,
            modified: self.modified,
            file_type: self.file_type,
        }
    }
}

/// A [`LeastStat`] as it is serialized: `modified` is RFC 3339 text.
#[derive(Clone, Debug, PartialEq, Eq)]
pub struct LeastStatJson {
    pub name: String,
    pub size: u64,
    pub mode: Permissions,
    pub modified: String,
    pub file_type: FileType,
}

/// A [`LeastStatJson`] with its strings as sequences of characters.
pub struct LeastStatJsonView {
    pub name: Seq<char>,
    pub size: u64,
    pub mode: Permissions,
    pub modified: Seq<char>,
    pub file_type: FileType,
}

impl View for LeastStatJson {
    type V = LeastStatJsonView;

    open spec fn view(&self) -> LeastStatJsonView {
        LeastStatJsonView {
            name: self.name@,
            size: self.size,
            mode: self.mode,
            modified: self.modified@,
            file_type: self.file_type,
        }
    }
}

/// The text of a path, if it has one, as a sequence of characters.
pub open spec fn path_view(name: Option<String>) -> Option<Seq<char>> {
    match name {
        Some(text) => Some(text@),
        None => None,
    }
}

/// The outcome of a metadata query with its failure as a sequence of
/// characters.
pub open spec fn query_view(query: Result<Metadata, String>) -> Result<Metadata, Seq<char>> {
    match query {
        Ok(meta) => Ok(meta),
        Err(reason) => Err(reason@),
    }
}

/// A record or the reason why there is none, by their views.
pub open spec fn stat_view(r: Result<LeastStat, StatError>) -> Result<
    LeastStatView,
    StatErrorView,
> {
    match r {
        Ok(least) => Ok(least@),
        Err(e) => Err(e@),
    }
}

/// A serialization form or the reason why there is none, by their views.
pub open spec fn json_view(r: Result<LeastStatJson, StatError>) -> Result<
    LeastStatJsonView,
    StatErrorView,
> {
    match r {
        Ok(json) => Ok(json@),
        Err(e) => Err(e@),
    }
}

/// The record for a path, given the path's text (`None` if the path is not
/// valid text) and what the one metadata query for it returned.
///
/// The text is looked at first: no query is made for a path without text, so
/// `query` does not count then. A failed query is the error, with the path.
/// No filesystem has an entry for the empty path, so a query that claims to
/// have found one is not believed. Any other query that succeeded gives the
/// record unless it could not supply the modification time. The name is the
/// path as given, the size is the length that was reported, and mode and file
/// type follow [`permissions_of`] and [`file_type_of`].
pub open spec fn stat_of(name: Option<Seq<char>>, query: Result<Metadata, Seq<char>>) -> Result<
    LeastStatView,
    StatErrorView,
> {
    match name {
        None => Err(StatErrorView::InvalidPath),
        Some(path) => match query {
            Err(reason) => Err(StatErrorView::Query { path, reason }),
            Ok(meta) => if path.len() == 0 {
                Err(StatErrorView::InvalidPath)
            } else {
                match meta.modified {
                    None => Err(StatErrorView::NoModifiedTime { path }),
                    Some(modified) => Ok(
                        LeastStatView {
                            name: path,
                            size: meta.len,
                            mode: permissions_of(meta.permissions),
                            modified,
                            file_type: file_type_of(meta.file_type),
                        },
                    ),
                }
            },
        },
    }
}

impl LeastStat {
    /// Builds the record for a path from the path's text and the outcome of
    /// the metadata query for it: see [`stat_of`].
    pub fn from_path(name: Option<String>, query: Result<Metadata, String>) -> (r: Result<
        LeastStat,
        StatError,
    >)
        ensures
            stat_view(r) == stat_of(path_view(name), query_view(query)),
    {
        let path = match name {
            Some(text) => text,
            None => {
                return Err(StatError::InvalidPath);
            },
        };
        let meta = match query {
            Ok(meta) => meta,
            Err(reason) => {
                return Err(StatError::Query { path, reason });
            },
        };
        if path.as_str().unicode_len() == 0 {
            return Err(StatError::InvalidPath);
        }
        let size: u64 = meta.len;
        let mode = Permissions::from(meta.permissions);
        let modified = match meta.modified {
            Some(modified) => modified,
            None => {
                return Err(StatError::NoModifiedTime { path });
            },
        };
        let file_type = FileType::from(meta.file_type);
        Ok(LeastStat { name: path, size, mode, modified, file_type })
    }
}

/// The serialization form of a record with `text` for its modification time:
/// every other field is carried over unchanged.
pub open spec fn json_with(least: LeastStatView, text: Seq<char>) -> LeastStatJsonView {
    LeastStatJsonView {
        name: least.name,
        size: least.size,
        mode: least.mode,
        modified: text,
        file_type: least.file_type,
    }
}

/// The serialization form of a record, given the RFC 3339 text of its
/// modification time, or `None` if that time has no such text: with a text
/// it is [`json_with`], without one there is none.
pub open spec fn json_of(least: LeastStatView, modified: Option<Seq<char>>) -> Result<
    LeastStatJsonView,
    StatErrorView,
> {
    match modified {
        Some(text) => Ok(json_with(least, text)),
        None => Err(StatErrorView::TimeFormat { path: least.name, modified: least.modified }),
    }
}

/// The serialization form of a record: [`json_of`] with the RFC 3339 text of
/// the record's modification time.
pub open spec fn converted(least: LeastStatView) -> Result<LeastStatJsonView, StatErrorView> {
    json_of(least, rfc3339_text(least.modified.unix_nanos as int))
}

/// The serialization form that every record has: [`json_with`] the RFC 3339
/// text of the record's modification time, and with an empty `modified`
/// where that time has no such text.
pub open spec fn json_from(least: LeastStatView) -> LeastStatJsonView {
    json_with(
        least,
        match rfc3339_text(least.modified.unix_nanos as int) {
            Some(text) => text,
            None => Seq::empty(),
        },
    )
}

impl LeastStatJson {
    /// Carries a record over, with its modification time as RFC 3339 text:
    /// see [`json_from`]. This cannot fail; a time without such a text leaves
    /// `modified` empty, which no time is written as.
    pub fn from(l: LeastStat) -> (json: LeastStatJson)
        ensures
            json@ == json_from(l@),
    {
        let modified = match format_rfc3339(l.modified.unix_nanos) {
            Some(text) => text,
            None => String::new(),
        };
        LeastStatJson {
            name: l.name,
            size: l.size,
            mode: l.mode,
            modified,
            file_type: l.file_type,
        }
    }

    /// Carries a record over with the given text for its modification time,
    /// or fails if there is none: see [`json_of`].
    pub fn with_modified(l: LeastStat, modified: Option<String>) -> (r: Result<
        LeastStatJson,
        StatError,
    >)
        ensures
            json_view(r) == json_of(l@, path_view(modified)),
    {
        match modified {
            Some(text) => Ok(
                LeastStatJson {
                    name: l.name,
                    size: l.size,
                    mode: l.mode,
                    modified: text,
                    file_type: l.file_type,
                },
            ),
            None => Err(StatError::TimeFormat { path: l.name, modified: l.modified }),
        }
    }
}

/// Turns records into their serialization form. It keeps nothing from one
/// record to the next.
pub struct Converter {}

/// A new converter.
pub fn converter_new() -> Converter {
    Converter {  }
}

impl Converter {
    /// Converts one record: see [`converted`].
    pub fn convert(&mut self, l: LeastStat) -> (r: Result<LeastStatJson, StatError>)
        ensures
            json_view(r) == converted(l@),
    {
        let text = format_rfc3339(l.modified.unix_nanos);
        LeastStatJson::with_modified(l, text)
    }
}

impl LeastStatJson {
    /// The record as one JSON object: see [`record_text`]. The text holds no
    /// line feed.
    pub fn to_json(&self) -> (text: String)
        ensures
            text@ == record_text(self@),
            !text@.contains('\n'),
    {
        let name_json = json_string(self.name.as_str());
        let modified_json = json_string(self.modified.as_str());
        frame_record(
            name_json.as_str(),
            self.size,
            &self.mode,
            modified_json.as_str(),
            &self.file_type,
        )
    }
}

/// Writes records as lines of JSON into a text that it keeps in memory.
pub struct Stat2Writer {
    conv: Converter,
    out: String,
}

impl View for Stat2Writer {
    type V = Seq<char>;

    /// The text written so far and not yet taken out.
    closed spec fn view(&self) -> Seq<char> {
        self.out@
    }
}

/// A writer that appends to `wtr`.
pub fn stat2writer_new(wtr: String) -> (writer: Stat2Writer)
    ensures
        writer@ == wtr@,
{
    Stat2Writer { conv: converter_new(), out: wtr }
}

impl Stat2Writer {
    /// Converts one record and appends its line: the JSON object and a line
    /// feed, which is the only one in the line. If the record cannot be
    /// converted, nothing is written and the error is returned.
    pub fn write(&mut self, least: LeastStat) -> (r: Result<(), StatError>)
        ensures
            match converted(least@) {
                Ok(json) => r is Ok && final(self)@ == old(self)@ + record_line(json)
                    && line_feeds(record_line(json)) == 1,
                Err(e) => r matches Err(x) && x@ == e && final(self)@ == old(self)@,
            },
    {
        let json = match self.conv.convert(least) {
            Ok(json) => json,
            Err(e) => {
                return Err(e);
            },
        };
        let text = json.to_json();
        self.out.append(text.as_str());
        self.out.append("\n");
        proof {
            reveal_strlit("\n");
            assert("\n"@ =~= seq!['\n']);
            assert(record_line(json@) =~= text@ + "\n"@);
            assert(final(self)@ =~= old(self)@ + record_line(json@));
            lemma_line_feeds_none(text@);
            lemma_line_feeds_concat(text@, "\n"@);
            assert(line_feeds(seq!['\n']) == 1) by {
                assert(seq!['\n'].drop_last() =~= Seq::<char>::empty());
                assert(line_feeds(Seq::<char>::empty()) == 0);
            }
        }
        Ok(())
    }

    /// Hands out the text written so far and starts anew with an empty one.
    pub fn take_output(&mut self) -> (text: String)
        ensures
            text@ == old(self)@,
            final(self)@ == Seq::<char>::empty(),
    {
        let mut text = String::new();
        std::mem::swap(&mut self.out, &mut text);
        text
    }

    /// Ends the writer and hands out the text written so far.
    pub fn into_inner(self) -> (text: String)
        ensures
            text@ == self@,
    {
        self.out
    }
}

/// What is known about one input line that could be read: the path on it,
/// and what the one metadata query for that path returned.
#[derive(Debug, PartialEq, Eq)]
pub struct Lookup {
    pub name: String,
    pub query: Result<Metadata, String>,
}

/// A [`Lookup`] with its strings as sequences of characters.
pub struct LookupView {
    pub name: Seq<char>,
    pub query: Result<Metadata, Seq<char>>,
}

impl View for Lookup {
    type V = LookupView;

    open spec fn view(&self) -> LookupView {
        LookupView { name: self.name@, query: query_view(self.query) }
    }
}

/// One input line by its view: the lookup for it, or why the line could not
/// be read.
pub open spec fn entry_view(entry: Result<Lookup, String>) -> Result<LookupView, Seq<char>> {
    match entry {
        Ok(lookup) => Ok(lookup@),
        Err(reason) => Err(reason@),
    }
}

/// The input lines by their views, in order.
pub open spec fn entries_view(entries: Seq<Result<Lookup, String>>) -> Seq<
    Result<LookupView, Seq<char>>,
> {
    Seq::new(entries.len(), |i: int| entry_view(entries[i]))
}

/// The end of a run by its view.
pub open spec fn verdict_view(r: Result<(), StatError>) -> Result<(), StatErrorView> {
    match r {
        Ok(()) => Ok(()),
        Err(e) => Err(e@),
    }
}

/// What one input line comes to: the serialization form of its record, or
/// the first thing that went wrong with it. A line that could not be read
/// fails with the reader's reason; then [`stat_of`] and [`converted`] decide.
pub open spec fn entry_json(entry: Result<LookupView, Seq<char>>) -> Result<
    LeastStatJsonView,
    StatErrorView,
> {
    match entry {
        Err(reason) => Err(StatErrorView::Read { reason }),
        Ok(lookup) => match stat_of(Some(lookup.name), lookup.query) {
            Ok(least) => converted(least),
            Err(e) => Err(e),
        },
    }
}

/// The lines of all the entries that come to a record, in order.
pub open spec fn lines_text(entries: Seq<Result<LookupView, Seq<char>>>) -> Seq<char>
    decreases entries.len(),
{
    if entries.len() == 0 {
        Seq::empty()
    } else {
        lines_text(entries.drop_last()) + match entry_json(entries.last()) {
            Ok(json) => record_line(json),
            Err(_) => Seq::empty(),
        }
    }
}

/// The number of entries in front of the first one that fails: all of them
/// if none fails.
pub open spec fn records_before_failure(entries: Seq<Result<LookupView, Seq<char>>>) -> nat
    decreases entries.len(),
{
    if entries.len() == 0 || entry_json(entries[0]) is Err {
        0
    } else {
        1 + records_before_failure(entries.skip(1))
    }
}

/// The text that a run over the entries writes: the lines of the entries in
/// front of the first failure.
pub open spec fn run_text(entries: Seq<Result<LookupView, Seq<char>>>) -> Seq<char> {
    lines_text(entries.take(records_before_failure(entries) as int))
}

/// How a run over the entries ends: with the error of the first entry that
/// fails, or well if none does.
pub open spec fn run_verdict(entries: Seq<Result<LookupView, Seq<char>>>) -> Result<
    (),
    StatErrorView,
> {
    let k = records_before_failure(entries) as int;
    if k < entries.len() {
        Err(entry_json(entries[k])->Err_0)
    } else {
        Ok(())
    }
}

/// [`records_before_failure`] is the one index in front of which every entry
/// comes to a record and at which the entries end or one fails.
pub proof fn lemma_records_before_failure(entries: Seq<Result<LookupView, Seq<char>>>, k: int)
    requires
        0 <= k <= entries.len(),
        forall|i: int| 0 <= i < k ==> entry_json(#[trigger] entries[i]) is Ok,
        k == entries.len() || entry_json(entries[k]) is Err,
    ensures
        records_before_failure(entries) == k,
    decreases entries.len(),
{
    if k > 0 {
        assert(entry_json(entries[0]) is Ok);
        let rest = entries.skip(1);
        assert forall|i: int| 0 <= i < k - 1 implies entry_json(#[trigger] rest[i]) is Ok by {
            assert(rest[i] == entries[i + 1]);
        }
        lemma_records_before_failure(rest, k - 1);
    }
}

/// In front of [`records_before_failure`] every entry comes to a record, and
/// at it the entries end or one fails.
pub proof fn lemma_first_failure(entries: Seq<Result<LookupView, Seq<char>>>)
    ensures
        records_before_failure(entries) <= entries.len(),
        forall|i: int|
            0 <= i < records_before_failure(entries) ==> entry_json(#[trigger] entries[i]) is Ok,
        records_before_failure(entries) == entries.len() || entry_json(
            entries[records_before_failure(entries) as int],
        ) is Err,
    decreases entries.len(),
{
    if !(entries.len() == 0 || entry_json(entries[0]) is Err) {
        let rest = entries.skip(1);
        lemma_first_failure(rest);
        assert forall|i: int| 0 <= i < records_before_failure(entries) implies entry_json(
            #[trigger] entries[i],
        ) is Ok by {
            if i > 0 {
                assert(entries[i] == rest[i - 1]);
            }
        }
        if records_before_failure(rest) < rest.len() {
            assert(rest[records_before_failure(rest) as int] == entries[records_before_failure(
                entries,
            ) as int]);
        }
    }
}

/// The lines of two runs of entries, one after the other, are the lines of
/// the first followed by the lines of the second.
pub proof fn lemma_lines_text_concat(
    first: Seq<Result<LookupView, Seq<char>>>,
    second: Seq<Result<LookupView, Seq<char>>>,
)
    ensures
        lines_text(first + second) == lines_text(first) + lines_text(second),
    decreases second.len(),
{
    if second.len() == 0 {
        assert(first + second =~= first);
    } else {
        assert((first + second).drop_last() =~= first + second.drop_last());
        assert((first + second).last() == second.last());
        lemma_lines_text_concat(first, second.drop_last());
    }
}

/// Runs over the input lines in order: each line that could be read and
/// whose query succeeded is converted and written as one line of JSON. The
/// run stops at the first line that fails, in whatever way, and returns that
/// failure; nothing is written for that line or any after it. Without a
/// failure every line is written and the run ends well.
pub fn filenames2stats2writer(
    filenames: Vec<Result<Lookup, String>>,
    writer: &mut Stat2Writer,
) -> (r: Result<(), StatError>)
    ensures
        final(writer)@ == old(writer)@ + run_text(entries_view(filenames@)),
        line_feeds(final(writer)@) == line_feeds(old(writer)@) + records_before_failure(
            entries_view(filenames@),
        ),
        verdict_view(r) == run_verdict(entries_view(filenames@)),
{
    let ghost entries = entries_view(filenames@);
    let mut i: usize = 0;
    proof {
        assert(entries.take(0) =~= Seq::empty());
    }
    while i < filenames.len()
        invariant
            i <= filenames.len(),
            entries == entries_view(filenames@),
            forall|j: int| 0 <= j < i ==> entry_json(#[trigger] entries[j]) is Ok,
            writer@ == old(writer)@ + lines_text(entries.take(i as int)),
            line_feeds(writer@) == line_feeds(old(writer)@) + i,
        decreases filenames.len() - i,
    {
        let ghost entry = entries[i as int];
        assert(entry == entry_view(filenames@[i as int]));
        let lookup = match &filenames[i] {
            Ok(lookup) => lookup,
            Err(reason) => {
                proof {
                    lemma_records_before_failure(entries, i as int);
                }
                return Err(StatError::Read { reason: reason.clone() });
            },
        };
        let query = match &lookup.query {
            Ok(meta) => Ok(*meta),
            Err(reason) => Err(reason.clone()),
        };
        let least = match LeastStat::from_path(Some(lookup.name.clone()), query) {
            Ok(least) => least,
            Err(e) => {
                proof {
                    lemma_records_before_failure(entries, i as int);
                }
                return Err(e);
            },
        };
        let ghost written = writer@;
        match writer.write(least) {
            Ok(()) => {},
            Err(e) => {
                proof {
                    lemma_records_before_failure(entries, i as int);
                }
                return Err(e);
            },
        }
        proof {
            let json = entry_json(entry)->Ok_0;
            assert(entries.take(i + 1).drop_last() =~= entries.take(i as int));
            assert(entries.take(i + 1).last() == entry);
            assert(writer@ =~= old(writer)@ + lines_text(entries.take(i + 1)));
            lemma_line_feeds_concat(written, record_line(json));
        }
        i += 1;
    }
    proof {
        lemma_records_before_failure(entries, i as int);
        assert(entries.take(i as int) =~= entries);
    }
    Ok(())
}

} // verus!
