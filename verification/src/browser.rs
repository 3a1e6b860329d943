//! The interactive file browser's data and decisions.
//!
//! The unverified shell scans a directory and hands the raw entries in;
//! everything after that — filtering to audio files, ordering, selection
//! movement, navigation decisions and rendering — is verified.  Key
//! handling is a pure decision from a key to an outcome; the shell owns
//! the terminal.

use vstd::multiset::Multiset;
use vstd::prelude::*;

use crate::chars::{
    eq_ci_char, last_index_upto, lemma_last_index_char, spec_eq_ci, spec_last_index_of,
};
use crate::error::AudioTranscriptionError;
use crate::numfmt::{spec_dec, spec_digit, u64_to_string};

verus! {

broadcast use vstd::seq_lib::group_to_multiset_ensures;

/// One entry as the directory scan saw it.
#[derive(Debug, Clone)]
pub struct RawDirEntry {
    /// The entry's file name (no directory part).
    pub name: String,
    /// The entry is itself a directory.
    pub is_dir: bool,
    /// The file's size in bytes (zero for directories).
    pub size: u64,
}

/// One entry as the browser shows it.
#[derive(Debug, Clone)]
pub enum DirectoryEntry {
    Directory { name: String },
    AudioFile { name: String, size: u64 },
    File { name: String, size: u64 },
    Parent,
}

/// A selection movement.
pub enum Direction {
    Up,
    Down,
}

/// The extension of a file name: everything after the last `.`, unless
/// the only `.` starts the name (a hidden file has no extension).
pub open spec fn spec_extension(name: Seq<char>) -> Option<Seq<char>> {
    let d = spec_last_index_of(name, '.');
    if d > 0 {
        Option::Some(name.subrange(d + 1, name.len() as int))
    } else {
        Option::None
    }
}

/// The audio formats the pipeline can decode, matched on the extension
/// without regard to ASCII case.
pub open spec fn spec_is_supported_audio(ext: Seq<char>) -> bool {
    ||| (ext.len() == 3 && spec_eq_ci(ext[0], 'w') && spec_eq_ci(ext[1], 'a') && spec_eq_ci(
        ext[2],
        'v',
    ))
    ||| (ext.len() == 3 && spec_eq_ci(ext[0], 'm') && spec_eq_ci(ext[1], 'p') && spec_eq_ci(
        ext[2],
        '3',
    ))
    ||| (ext.len() == 3 && spec_eq_ci(ext[0], 'm') && spec_eq_ci(ext[1], '4') && spec_eq_ci(
        ext[2],
        'a',
    ))
    ||| (ext.len() == 3 && spec_eq_ci(ext[0], 'o') && spec_eq_ci(ext[1], 'g') && spec_eq_ci(
        ext[2],
        'g',
    ))
    ||| (ext.len() == 4 && spec_eq_ci(ext[0], 'f') && spec_eq_ci(ext[1], 'l') && spec_eq_ci(
        ext[2],
        'a',
    ) && spec_eq_ci(ext[3], 'c'))
    ||| (ext.len() == 4 && spec_eq_ci(ext[0], 'w') && spec_eq_ci(ext[1], 'e') && spec_eq_ci(
        ext[2],
        'b',
    ) && spec_eq_ci(ext[3], 'm'))
}

/// How one raw entry shows up in the listing: directories always, audio
/// files always, other files only when the audio filter is off.
pub open spec fn spec_classify(e: RawDirEntry, filter_audio_only: bool) -> Option<DirectoryEntry> {
    if e.is_dir {
        Option::Some(DirectoryEntry::Directory { name: e.name })
    } else {
        match spec_extension(e.name@) {
            Option::Some(ext) => if spec_is_supported_audio(ext) {
                Option::Some(DirectoryEntry::AudioFile { name: e.name, size: e.size })
            } else if !filter_audio_only {
                Option::Some(DirectoryEntry::File { name: e.name, size: e.size })
            } else {
                Option::None
            },
            Option::None => if !filter_audio_only {
                Option::Some(DirectoryEntry::File { name: e.name, size: e.size })
            } else {
                Option::None
            },
        }
    }
}

/// The listing a scan produces before ordering, in scan order.
pub open spec fn spec_classified(raw: Seq<RawDirEntry>, filter_audio_only: bool) -> Seq<
    DirectoryEntry,
>
    decreases raw.len(),
{
    if raw.len() == 0 {
        Seq::<DirectoryEntry>::empty()
    } else {
        (match spec_classify(raw[0], filter_audio_only) {
            Option::Some(e) => seq![e],
            Option::None => Seq::<DirectoryEntry>::empty(),
        }) + spec_classified(raw.drop_first(), filter_audio_only)
    }
}

/// The listing groups: directories first, then audio files, then other
/// files.
pub open spec fn spec_rank(e: DirectoryEntry) -> int {
    match e {
        DirectoryEntry::Parent => -1,
        DirectoryEntry::Directory { .. } => 0,
        DirectoryEntry::AudioFile { .. } => 1,
        DirectoryEntry::File { .. } => 2,
    }
}

/// The name an entry is ordered by within its group.
pub open spec fn spec_entry_name(e: DirectoryEntry) -> Seq<char> {
    match e {
        DirectoryEntry::Parent => Seq::<char>::empty(),
        DirectoryEntry::Directory { name } => name@,
        DirectoryEntry::AudioFile { name, .. } => name@,
        DirectoryEntry::File { name, .. } => name@,
    }
}

/// Lexicographic order on names, by code point.
pub open spec fn spec_lex_le(s: Seq<char>, t: Seq<char>) -> bool
    decreases s.len(),
{
    if s.len() == 0 {
        true
    } else if t.len() == 0 {
        false
    } else if (s[0] as u32) < (t[0] as u32) {
        true
    } else if (s[0] as u32) > (t[0] as u32) {
        false
    } else {
        spec_lex_le(s.drop_first(), t.drop_first())
    }
}

/// The listing order: by group, then by name.
pub open spec fn spec_entry_le(a: DirectoryEntry, b: DirectoryEntry) -> bool {
    spec_rank(a) < spec_rank(b) || (spec_rank(a) == spec_rank(b) && spec_lex_le(
        spec_entry_name(a),
        spec_entry_name(b),
    ))
}

/// Each entry precedes the next in the listing order.
pub open spec fn spec_entries_ordered(s: Seq<DirectoryEntry>) -> bool {
    forall|i: int| 0 <= i && i + 1 < s.len() ==> #[trigger] spec_entry_le(s[i], s[i + 1])
}

/// Any two names compare one way or the other.
proof fn lemma_lex_total(s: Seq<char>, t: Seq<char>)
    ensures
        spec_lex_le(s, t) || spec_lex_le(t, s),
    decreases s.len(),
{
    if s.len() == 0 {
    } else if t.len() == 0 {
    } else if (s[0] as u32) == (t[0] as u32) {
        lemma_lex_total(s.drop_first(), t.drop_first());
    }
}

/// Any two entries compare one way or the other.
proof fn lemma_entry_le_total(a: DirectoryEntry, b: DirectoryEntry)
    ensures
        spec_entry_le(a, b) || spec_entry_le(b, a),
{
    lemma_lex_total(spec_entry_name(a), spec_entry_name(b));
}

fn lex_le_from(a: &str, b: &str, i: usize, na: usize, nb: usize) -> (r: bool)
    requires
        na == a@.len(),
        nb == b@.len(),
        i <= na,
        i <= nb,
    ensures
        r == spec_lex_le(a@.skip(i as int), b@.skip(i as int)),
    decreases na - i,
{
    if i == na {
        true
    } else if i == nb {
        false
    } else {
        let ca = a.get_char(i);
        let cb = b.get_char(i);
        if (ca as u32) < (cb as u32) {
            true
        } else if (ca as u32) > (cb as u32) {
            false
        } else {
            let r = lex_le_from(a, b, i + 1, na, nb);
            proof {
                assert(a@.skip(i as int).drop_first() =~= a@.skip(i as int + 1));
                assert(b@.skip(i as int).drop_first() =~= b@.skip(i as int + 1));
            }
            r
        }
    }
}

fn lex_le(a: &str, b: &str) -> (r: bool)
    ensures
        r == spec_lex_le(a@, b@),
{
    let na = a.unicode_len();
    let nb = b.unicode_len();
    let r = lex_le_from(a, b, 0, na, nb);
    proof {
        assert(a@.skip(0) =~= a@);
        assert(b@.skip(0) =~= b@);
    }
    r
}

fn entry_rank(e: &DirectoryEntry) -> (r: i8)
    ensures
        r as int == spec_rank(*e),
{
    match e {
        DirectoryEntry::Parent => -1,
        DirectoryEntry::Directory { .. } => 0,
        DirectoryEntry::AudioFile { .. } => 1,
        DirectoryEntry::File { .. } => 2,
    }
}

fn entry_name(e: &DirectoryEntry) -> (r: &str)
    ensures
        r@ == spec_entry_name(*e),
{
    proof {
        reveal_strlit("");
    }
    match e {
        DirectoryEntry::Parent => "",
        DirectoryEntry::Directory { name } => name.as_str(),
        DirectoryEntry::AudioFile { name, .. } => name.as_str(),
        DirectoryEntry::File { name, .. } => name.as_str(),
    }
}

fn entry_le(a: &DirectoryEntry, b: &DirectoryEntry) -> (r: bool)
    ensures
        r == spec_entry_le(*a, *b),
{
    let ra = entry_rank(a);
    let rb = entry_rank(b);
    if ra < rb {
        true
    } else if ra > rb {
        false
    } else {
        lex_le(entry_name(a), entry_name(b))
    }
}

/// Insert one entry into an ordered listing, keeping it ordered.
fn insert_sorted(out: &mut Vec<DirectoryEntry>, x: DirectoryEntry)
    requires
        spec_entries_ordered(old(out)@),
    ensures
        spec_entries_ordered(final(out)@),
        final(out)@.to_multiset() == old(out)@.to_multiset().insert(x),
        final(out)@.len() == old(out)@.len() + 1,
    decreases old(out)@.len(),
{
    let ghost orig = out@;
    let mut i: usize = 0;
    while i < out.len() && entry_le(&out[i], &x)
        invariant
            i <= out.len(),
            out@ == orig,
            forall|k: int| 0 <= k < i ==> spec_entry_le(orig[k], x),
        decreases out@.len() - i,
    {
        i = i + 1;
    }
    proof {
        if i < out@.len() {
            lemma_entry_le_total(orig[i as int], x);
            assert(spec_entry_le(x, orig[i as int]));
        }
    }
    out.insert(i, x);
    proof {
        let new = out@;
        orig.insert_ensures(i as int, x);
        assert forall|k: int| 0 <= k && k + 1 < new.len() implies #[trigger] spec_entry_le(
            new[k],
            new[k + 1],
        ) by {
            if k + 1 < i {
                assert(new[k] == orig[k] && new[k + 1] == orig[k + 1]);
            } else if k + 1 == i {
                assert(new[k] == orig[k] && new[k + 1] == x);
            } else if k == i {
                assert(new[k] == x && new[k + 1] == orig[k]);
            } else {
                assert(new[k] == orig[k - 1] && new[k + 1] == orig[k]);
            }
        }
        assert(new.remove(i as int) =~= orig);
        assert(new.remove(i as int).to_multiset() =~= new.to_multiset().remove(new[i as int]));
        assert(new[i as int] == x);
        assert(new.to_multiset().contains(x));
        assert(new.to_multiset() =~= orig.to_multiset().insert(x)) by {
            assert(new.to_multiset().remove(x) =~= orig.to_multiset());
            assert(new.to_multiset().count(x) > 0);
        }
    }
}

/// Order a listing: directories first, then audio files, then other
/// files, each group by name.  The result holds exactly the given
/// entries.
fn sort_entries(v: Vec<DirectoryEntry>) -> (r: Vec<DirectoryEntry>)
    ensures
        spec_entries_ordered(r@),
        r@.to_multiset() == v@.to_multiset(),
        r@.len() == v@.len(),
{
    let ghost orig = v@;
    let mut v = v;
    let mut out: Vec<DirectoryEntry> = Vec::new();
    while v.len() > 0
        invariant
            spec_entries_ordered(out@),
            out@.to_multiset().add(v@.to_multiset()) == orig.to_multiset(),
            out@.len() + v@.len() == orig.len(),
        decreases v@.len(),
    {
        let ghost vpre = v@;
        let x = v.remove(0);
        proof {
            assert(vpre.remove(0).to_multiset() =~= vpre.to_multiset().remove(vpre[0]));
        }
        let ghost opre = out@;
        insert_sorted(&mut out, x);
        proof {
            assert(out@.to_multiset().add(v@.to_multiset()) =~= orig.to_multiset());
        }
    }
    proof {
        assert(v@.to_multiset() =~= Multiset::<DirectoryEntry>::empty());
        assert(out@.to_multiset() =~= orig.to_multiset());
    }
    out
}

/// Whether a file extension names a supported audio format.
pub fn is_supported_audio_format(extension: &str) -> (r: bool)
    ensures
        r == spec_is_supported_audio(extension@),
{
    let n = extension.unicode_len();
    if n == 3 {
        let c0 = extension.get_char(0);
        let c1 = extension.get_char(1);
        let c2 = extension.get_char(2);
        (eq_ci_char(c0, 'w', 'W') && eq_ci_char(c1, 'a', 'A') && eq_ci_char(c2, 'v', 'V'))
            || (eq_ci_char(c0, 'm', 'M') && eq_ci_char(c1, 'p', 'P') && eq_ci_char(c2, '3', '3'))
            || (eq_ci_char(c0, 'm', 'M') && eq_ci_char(c1, '4', '4') && eq_ci_char(c2, 'a', 'A'))
            || (eq_ci_char(c0, 'o', 'O') && eq_ci_char(c1, 'g', 'G') && eq_ci_char(c2, 'g', 'G'))
    } else if n == 4 {
        let c0 = extension.get_char(0);
        let c1 = extension.get_char(1);
        let c2 = extension.get_char(2);
        let c3 = extension.get_char(3);
        (eq_ci_char(c0, 'f', 'F') && eq_ci_char(c1, 'l', 'L') && eq_ci_char(c2, 'a', 'A')
            && eq_ci_char(c3, 'c', 'C')) || (eq_ci_char(c0, 'w', 'W') && eq_ci_char(c1, 'e', 'E')
            && eq_ci_char(c2, 'b', 'B') && eq_ci_char(c3, 'm', 'M'))
    } else {
        false
    }
}

/// How one raw entry shows up in the listing, if at all.
fn classify_entry(e: &RawDirEntry, filter_audio_only: bool) -> (r: Option<DirectoryEntry>)
    ensures
        r == spec_classify(*e, filter_audio_only),
{
    if e.is_dir {
        Some(DirectoryEntry::Directory { name: e.name.clone() })
    } else {
        let n = e.name.as_str().unicode_len();
        let dot = last_index_upto(e.name.as_str(), n, '.');
        proof {
            lemma_last_index_char(
                e.name@,
                '.',
                match dot {
                    Option::Some(i) => i as int,
                    Option::None => -1,
                },
            );
        }
        let has_audio_ext = match dot {
            Some(d) if d > 0 => {
                let ext = e.name.as_str().substring_char(d + 1, n);
                Some(is_supported_audio_format(ext))
            },
            _ => None,
        };
        match has_audio_ext {
            Some(true) => Some(DirectoryEntry::AudioFile { name: e.name.clone(), size: e.size }),
            Some(false) => if !filter_audio_only {
                Some(DirectoryEntry::File { name: e.name.clone(), size: e.size })
            } else {
                None
            },
            None => if !filter_audio_only {
                Some(DirectoryEntry::File { name: e.name.clone(), size: e.size })
            } else {
                None
            },
        }
    }
}

/// The divisor of a size unit: 1 B, 1 KB, 1 MB or 1 GB in bytes.
pub open spec fn spec_unit_divisor(unit: int) -> int {
    if unit == 1 {
        1024
    } else if unit == 2 {
        1048576
    } else if unit == 3 {
        1073741824
    } else {
        1
    }
}

/// The unit a size is shown in: the largest of B, KB, MB, GB that keeps
/// the integer part non-zero, capped at GB.
pub open spec fn spec_size_unit(size: u64) -> int {
    if size >= 1073741824 {
        3
    } else if size >= 1048576 {
        2
    } else if size >= 1024 {
        1
    } else {
        0
    }
}

/// A size formatted for display: whole bytes below 1 KB, otherwise the
/// scaled value with one decimal (rounded half up) and its unit.
pub open spec fn spec_format_file_size(size: u64) -> Seq<char> {
    let unit = spec_size_unit(size);
    if unit == 0 {
        spec_dec(size as nat) + " B"@
    } else {
        let div = spec_unit_divisor(unit);
        let tenths = (size as int / div) * 10 + ((size as int % div) * 10 + div / 2) / div;
        spec_dec((tenths / 10) as nat) + "."@ + seq![spec_digit(tenths % 10)] + (if unit == 1 {
            " KB"@
        } else if unit == 2 {
            " MB"@
        } else {
            " GB"@
        })
    }
}

/// Format a byte count for display.
pub fn format_file_size(size: u64) -> (r: String)
    ensures
        r@ == spec_format_file_size(size),
{
    if size < 1024 {
        let mut r = u64_to_string(size);
        r.append(" B");
        proof {
            assert(r@ =~= spec_format_file_size(size));
        }
        r
    } else {
        let div: u64 = if size >= 1073741824 {
            1073741824
        } else if size >= 1048576 {
            1048576
        } else {
            1024
        };
        let tenths: u64 = (size / div) * 10 + ((size % div) * 10 + div / 2) / div;
        let mut r = u64_to_string(tenths / 10);
        r.append(".");
        r.append(u64_to_string(tenths % 10).as_str());
        r.append(
            if div == 1073741824 {
                " GB"
            } else if div == 1048576 {
                " MB"
            } else {
                " KB"
            },
        );
        proof {
            assert(r@ =~= spec_format_file_size(size));
        }
        r
    }
}

/// A path has a parent to go up to unless it is empty or the root `/`.
pub open spec fn spec_has_parent(path: Seq<char>) -> bool {
    path.len() > 0 && !(path.len() == 1 && path[0] == '/')
}

/// The parent of a path: everything before the last `/` (the root stays
/// `/`; a bare file name has the empty path as its parent).
pub open spec fn spec_parent_path(path: Seq<char>) -> Seq<char> {
    let ls = spec_last_index_of(path, '/');
    if ls < 0 {
        Seq::<char>::empty()
    } else if ls == 0 {
        "/"@
    } else {
        path.subrange(0, ls)
    }
}

/// A path joined with a file name, avoiding a doubled separator.
pub open spec fn spec_join(dir: Seq<char>, name: Seq<char>) -> Seq<char> {
    if dir.len() == 0 {
        name
    } else if dir[dir.len() - 1] == '/' {
        dir + name
    } else {
        dir + "/"@ + name
    }
}

fn has_parent(path: &str) -> (r: bool)
    ensures
        r == spec_has_parent(path@),
{
    let n = path.unicode_len();
    n > 0 && !(n == 1 && path.get_char(0) == '/')
}

fn parent_path(path: &str) -> (r: String)
    ensures
        r@ == spec_parent_path(path@),
{
    let n = path.unicode_len();
    let ls = last_index_upto(path, n, '/');
    proof {
        lemma_last_index_char(
            path@,
            '/',
            match ls {
                Option::Some(i) => i as int,
                Option::None => -1,
            },
        );
    }
    match ls {
        None => String::new(),
        Some(0) => "/".to_owned(),
        Some(i) => path.substring_char(0, i).to_owned(),
    }
}

fn join_path(dir: &str, name: &str) -> (r: String)
    ensures
        r@ == spec_join(dir@, name@),
{
    let n = dir.unicode_len();
    if n == 0 {
        name.to_owned()
    } else if dir.get_char(n - 1) == '/' {
        let mut r = dir.to_owned();
        r.append(name);
        r
    } else {
        let mut r = dir.to_owned();
        r.append("/");
        r.append(name);
        proof {
            assert(r@ =~= spec_join(dir@, name@));
        }
        r
    }
}

/// One rendered listing line: a selection marker or indent, the entry
/// (audio files in colour, sizes formatted), a colour reset where one
/// was opened, and the terminal line break.
pub open spec fn spec_render_entry(e: DirectoryEntry, selected: bool) -> Seq<char> {
    let prefix = if selected {
        "\x1b[92m> "@
    } else {
        "  "@
    };
    let reset = if selected {
        "\x1b[0m"@
    } else {
        Seq::<char>::empty()
    };
    let body = match e {
        DirectoryEntry::Parent => "../"@ + reset,
        DirectoryEntry::Directory { name } => name@ + "/"@ + reset,
        DirectoryEntry::AudioFile { name, size } => (if !selected {
            "\x1b[94m"@
        } else {
            Seq::<char>::empty()
        }) + name@ + " ("@ + spec_format_file_size(size) + ")\x1b[0m"@,
        DirectoryEntry::File { name, size } => name@ + " ("@ + spec_format_file_size(size) + ")"@
            + reset,
    };
    prefix + body + "\r\n"@
}

/// The listing lines from entry `i` on.
pub open spec fn spec_render_entries(
    entries: Seq<DirectoryEntry>,
    selected_index: int,
    i: int,
) -> Seq<char>
    decreases entries.len() - i,
{
    if i < 0 || i >= entries.len() {
        Seq::<char>::empty()
    } else {
        spec_render_entry(entries[i], i == selected_index) + spec_render_entries(
            entries,
            selected_index,
            i + 1,
        )
    }
}

/// The whole rendered screen: header, listing, and a notice line when
/// the listing is empty.
pub open spec fn spec_render(b: FileBrowser) -> Seq<char> {
    "Directory: "@ + b.current_path@ + "\r\n"@ + (if b.filter_audio_only {
        "Filter: Audio only\r\n"@
    } else {
        "Filter: All files\r\n"@
    }) + "Controls: Up/Down=navigate, Enter=select, f=filter, q=quit\r\n"@
        + "------------------------------------------------------------\r\n"@
        + spec_render_entries(b.entries@, b.selected_index as int, 0) + (if b.entries@.len() == 0 {
        "  (No files to display)\r\n"@
    } else {
        Seq::<char>::empty()
    }) + "\r\n"@
}

fn render_entry(e: &DirectoryEntry, selected: bool) -> (r: String)
    ensures
        r@ == spec_render_entry(*e, selected),
{
    let mut r = if selected {
        "\x1b[92m> ".to_owned()
    } else {
        "  ".to_owned()
    };
    match e {
        DirectoryEntry::Parent => {
            r.append("../");
            if selected {
                r.append("\x1b[0m");
            }
        },
        DirectoryEntry::Directory { name } => {
            r.append(name.as_str());
            r.append("/");
            if selected {
                r.append("\x1b[0m");
            }
        },
        DirectoryEntry::AudioFile { name, size } => {
            if !selected {
                r.append("\x1b[94m");
            }
            r.append(name.as_str());
            r.append(" (");
            r.append(format_file_size(*size).as_str());
            r.append(")\x1b[0m");
        },
        DirectoryEntry::File { name, size } => {
            r.append(name.as_str());
            r.append(" (");
            r.append(format_file_size(*size).as_str());
            r.append(")");
            if selected {
                r.append("\x1b[0m");
            }
        },
    }
    r.append("\r\n");
    proof {
        assert(r@ =~= spec_render_entry(*e, selected));
    }
    r
}

enum NavAction {
    Nothing,
    ToParent,
    Into(String),
    Pick(String),
}

/// The interactive file browser over one directory's listing.
pub struct FileBrowser {
    /// The directory being browsed.
    pub current_path: String,
    /// The raw listing the shell last handed in for this directory.
    pub raw_entries: Vec<RawDirEntry>,
    /// The listing as shown: a parent entry where one exists, then the
    /// classified raw entries in listing order.
    pub entries: Vec<DirectoryEntry>,
    /// The highlighted entry.
    pub selected_index: usize,
    /// Show audio files only.
    pub filter_audio_only: bool,
}

impl FileBrowser {
    /// The shown listing is the classified raw listing in listing order,
    /// behind a parent entry where the path has a parent.
    pub open spec fn spec_valid_listing(self) -> bool {
        let parent_count: int = if spec_has_parent(self.current_path@) {
            1
        } else {
            0
        };
        &&& self.entries@.len() >= parent_count
        &&& (parent_count == 1 ==> self.entries@[0] is Parent)
        &&& spec_entries_ordered(self.entries@.skip(parent_count))
        &&& self.entries@.skip(parent_count).to_multiset() == spec_classified(
            self.raw_entries@,
            self.filter_audio_only,
        ).to_multiset()
    }

    /// The entry the selection rests on, if it is in range.
    pub open spec fn spec_selected(self) -> Option<DirectoryEntry> {
        if self.selected_index < self.entries@.len() {
            Option::Some(self.entries@[self.selected_index as int])
        } else {
            Option::None
        }
    }

    /// A browser at `path` with an empty listing (the shell follows up
    /// with [`FileBrowser::set_directory_listing`] once it has scanned
    /// the directory).  The audio filter starts enabled.
    pub fn new(path: String) -> (r: Result<FileBrowser, AudioTranscriptionError>)
        ensures
            r is Ok,
            r matches Ok(b) ==> (b.current_path == path && b.selected_index == 0
                && b.filter_audio_only && b.raw_entries@.len() == 0 && b.spec_valid_listing()),
    {
        let mut b = FileBrowser {
            current_path: path,
            raw_entries: Vec::new(),
            entries: Vec::new(),
            selected_index: 0,
            filter_audio_only: true,
        };
        b.refresh_entries();
        Ok(b)
    }

    /// Move to another directory: the selection returns to the top and
    /// the listing empties until the shell scans the new directory.
    pub fn navigate_to(&mut self, path: String) -> (r: Result<(), AudioTranscriptionError>)
        ensures
            r is Ok,
            final(self).current_path == path,
            final(self).selected_index == 0,
            final(self).raw_entries@.len() == 0,
            final(self).filter_audio_only == old(self).filter_audio_only,
            final(self).spec_valid_listing(),
    {
        self.current_path = path;
        self.selected_index = 0;
        self.raw_entries = Vec::new();
        self.refresh_entries();
        Ok(())
    }

    /// Take the raw listing of the current directory and rebuild the
    /// shown entries from it.
    pub fn set_directory_listing(&mut self, raw: Vec<RawDirEntry>)
        ensures
            final(self).raw_entries == raw,
            final(self).current_path == old(self).current_path,
            final(self).selected_index == old(self).selected_index,
            final(self).filter_audio_only == old(self).filter_audio_only,
            final(self).spec_valid_listing(),
    {
        self.raw_entries = raw;
        self.refresh_entries();
    }

    /// Rebuild the shown entries from the stored raw listing: classify
    /// each raw entry under the current filter, order the result, and
    /// put a parent entry in front where the path has a parent.
    pub fn refresh_entries(&mut self)
        ensures
            final(self).current_path == old(self).current_path,
            final(self).raw_entries == old(self).raw_entries,
            final(self).selected_index == old(self).selected_index,
            final(self).filter_audio_only == old(self).filter_audio_only,
            final(self).spec_valid_listing(),
    {
        let ghost raw = self.raw_entries@;
        let filter = self.filter_audio_only;
        let mut listed: Vec<DirectoryEntry> = Vec::new();
        let mut i: usize = 0;
        proof {
            assert(raw.skip(0) =~= raw);
            assert(listed@ + spec_classified(raw, filter) =~= spec_classified(raw, filter));
        }
        while i < self.raw_entries.len()
            invariant
                i <= self.raw_entries@.len(),
                raw == self.raw_entries@,
                filter == self.filter_audio_only,
                spec_classified(raw, filter) == listed@ + spec_classified(
                    raw.skip(i as int),
                    filter,
                ),
            decreases self.raw_entries@.len() - i,
        {
            proof {
                assert(raw.skip(i as int)[0] == raw[i as int]);
                assert(raw.skip(i as int).drop_first() =~= raw.skip(i as int + 1));
            }
            let ghost pre = listed@;
            match classify_entry(&self.raw_entries[i], filter) {
                Some(e) => {
                    listed.push(e);
                    proof {
                        assert(listed@ =~= pre + seq![e]);
                    }
                },
                None => (),
            }
            proof {
                assert(listed@ + spec_classified(raw.skip(i as int + 1), filter)
                    =~= spec_classified(raw, filter));
            }
            i = i + 1;
        }
        proof {
            assert(raw.skip(raw.len() as int) =~= Seq::<RawDirEntry>::empty());
            assert(spec_classified(raw, filter) =~= listed@);
        }
        let ghost listed_view = listed@;
        let mut sorted = sort_entries(listed);
        let ghost sorted_view = sorted@;
        let mut entries: Vec<DirectoryEntry> = Vec::new();
        if has_parent(self.current_path.as_str()) {
            entries.push(DirectoryEntry::Parent);
        }
        let ghost head = entries@;
        entries.append(&mut sorted);
        self.entries = entries;
        proof {
            let parent_count: int = if spec_has_parent(self.current_path@) {
                1
            } else {
                0
            };
            assert(self.entries@ == head + sorted_view);
            assert(head.len() == parent_count);
            assert(self.entries@.skip(parent_count) =~= sorted_view);
            assert(spec_entries_ordered(self.entries@.skip(parent_count)));
            assert(self.entries@.skip(parent_count).to_multiset() == spec_classified(
                self.raw_entries@,
                self.filter_audio_only,
            ).to_multiset());
            if parent_count == 1 {
                assert(self.entries@[0] == head[0]);
            }
        }
    }

    pub fn get_selected(&self) -> (r: Option<&DirectoryEntry>)
        ensures
            r is Some <==> self.selected_index < self.entries@.len(),
            r matches Some(e) ==> *e == self.entries@[self.selected_index as int],
    {
        if self.selected_index < self.entries.len() {
            Some(&self.entries[self.selected_index])
        } else {
            None
        }
    }

    /// Switch the audio filter.  A change rebuilds the listing and
    /// returns the selection to the top; setting the current value
    /// changes nothing.
    pub fn set_audio_filter(&mut self, enabled: bool) -> (r: Result<(), AudioTranscriptionError>)
        ensures
            r is Ok,
            final(self).filter_audio_only == enabled,
            final(self).current_path == old(self).current_path,
            enabled != old(self).filter_audio_only ==> (final(self).selected_index == 0 && final(self).raw_entries == old(self).raw_entries && final(self).spec_valid_listing()),
            enabled == old(self).filter_audio_only ==> *final(self) == *old(self),
    {
        if self.filter_audio_only != enabled {
            self.filter_audio_only = enabled;
            self.selected_index = 0;
            self.refresh_entries();
        }
        Ok(())
    }

    pub fn is_audio_filter_enabled(&self) -> (r: bool)
        ensures
            r == self.filter_audio_only,
    {
        self.filter_audio_only
    }

    /// Act on the selected entry: go up on the parent entry, enter a
    /// directory, or hand back the full path of a selected file.
    pub fn navigate_selected(&mut self) -> (r: Result<Option<String>, AudioTranscriptionError>)
        ensures
            r is Ok,
            final(self).filter_audio_only == old(self).filter_audio_only,
            old(self).spec_selected() is None ==> (*final(self) == *old(self) && (r matches Ok(p)
                && p is None)),
            old(self).spec_selected() matches Some(DirectoryEntry::Parent) ==> (r matches Ok(p)
                && p is None),
            (old(self).spec_selected() matches Some(DirectoryEntry::Parent) && spec_has_parent(
                old(self).current_path@,
            )) ==> (final(self).current_path@ == spec_parent_path(old(self).current_path@) && final(self).selected_index == 0 && final(self).spec_valid_listing()),
            (old(self).spec_selected() matches Some(DirectoryEntry::Parent) && !spec_has_parent(
                old(self).current_path@,
            )) ==> *final(self) == *old(self),
            old(self).spec_selected() matches Some(DirectoryEntry::Directory { name }) ==> (final(self).current_path@ == spec_join(old(self).current_path@, name@) && final(self).selected_index == 0 && final(self).spec_valid_listing() && (r matches Ok(p) && p
                is None)),
            old(self).spec_selected() matches Some(DirectoryEntry::AudioFile { name, size }) ==> (
            *final(self) == *old(self) && (r matches Ok(p) && p matches Some(f) && f@ == spec_join(
                old(self).current_path@,
                name@,
            ))),
            old(self).spec_selected() matches Some(DirectoryEntry::File { name, size }) ==> (*final(self) == *old(self) && (r matches Ok(p) && p matches Some(f) && f@ == spec_join(
                old(self).current_path@,
                name@,
            ))),
    {
        let action = match self.get_selected() {
            None => NavAction::Nothing,
            Some(DirectoryEntry::Parent) => NavAction::ToParent,
            Some(DirectoryEntry::Directory { name }) => NavAction::Into(name.clone()),
            Some(DirectoryEntry::AudioFile { name, .. }) => NavAction::Pick(name.clone()),
            Some(DirectoryEntry::File { name, .. }) => NavAction::Pick(name.clone()),
        };
        match action {
            NavAction::Nothing => Ok(None),
            NavAction::ToParent => {
                if has_parent(self.current_path.as_str()) {
                    let p = parent_path(self.current_path.as_str());
                    match self.navigate_to(p) {
                        Ok(_) => Ok(None),
                        Err(e) => Err(e),
                    }
                } else {
                    Ok(None)
                }
            },
            NavAction::Into(name) => {
                let p = join_path(self.current_path.as_str(), name.as_str());
                match self.navigate_to(p) {
                    Ok(_) => Ok(None),
                    Err(e) => Err(e),
                }
            },
            NavAction::Pick(name) => Ok(
                Some(join_path(self.current_path.as_str(), name.as_str())),
            ),
        }
    }

    /// Move the selection one entry up or down, staying in range.
    pub fn move_selection(&mut self, direction: Direction)
        ensures
            final(self).current_path == old(self).current_path,
            final(self).raw_entries == old(self).raw_entries,
            final(self).entries == old(self).entries,
            final(self).filter_audio_only == old(self).filter_audio_only,
            direction is Up ==> final(self).selected_index == (if old(self).selected_index > 0 {
                old(self).selected_index - 1
            } else {
                0
            }),
            direction is Down ==> final(self).selected_index == (if old(self).entries@.len() > 0
                && old(self).selected_index < old(self).entries@.len() - 1 {
                old(self).selected_index + 1
            } else {
                old(self).selected_index as int
            }),
    {
        match direction {
            Direction::Up => {
                if self.selected_index > 0 {
                    self.selected_index = self.selected_index - 1;
                }
            },
            Direction::Down => {
                let len = self.entries.len();
                if len > 0 && self.selected_index < len - 1 {
                    self.selected_index = self.selected_index + 1;
                }
            },
        }
    }

    /// Render the whole screen to a string.
    pub fn render(&self) -> (r: String)
        ensures
            r@ == spec_render(*self),
    {
        let mut r = "Directory: ".to_owned();
        r.append(self.current_path.as_str());
        r.append("\r\n");
        if self.filter_audio_only {
            r.append("Filter: Audio only\r\n");
        } else {
            r.append("Filter: All files\r\n");
        }
        r.append("Controls: Up/Down=navigate, Enter=select, f=filter, q=quit\r\n");
        r.append("------------------------------------------------------------\r\n");
        let ghost header = r@;
        let mut i: usize = 0;
        while i < self.entries.len()
            invariant
                i <= self.entries@.len(),
                r@ + spec_render_entries(self.entries@, self.selected_index as int, i as int)
                    == header + spec_render_entries(self.entries@, self.selected_index as int, 0),
            decreases self.entries@.len() - i,
        {
            let line = render_entry(&self.entries[i], i == self.selected_index);
            r.append(line.as_str());
            proof {
                assert(r@ + spec_render_entries(
                    self.entries@,
                    self.selected_index as int,
                    i + 1,
                ) =~= header + spec_render_entries(self.entries@, self.selected_index as int, 0));
            }
            i = i + 1;
        }
        proof {
            assert(spec_render_entries(
                self.entries@,
                self.selected_index as int,
                self.entries@.len() as int,
            ) =~= Seq::<char>::empty());
            assert(r@ =~= header + spec_render_entries(
                self.entries@,
                self.selected_index as int,
                0,
            ));
        }
        if self.entries.len() == 0 {
            r.append("  (No files to display)\r\n");
        }
        r.append("\r\n");
        proof {
            assert(r@ =~= spec_render(*self));
        }
        r
    }

    pub fn current_path(&self) -> (r: &String)
        ensures
            r == &self.current_path,
    {
        &self.current_path
    }

    pub fn selected_index(&self) -> (r: usize)
        ensures
            r == self.selected_index,
    {
        self.selected_index
    }

    pub fn entries(&self) -> (r: &Vec<DirectoryEntry>)
        ensures
            r == &self.entries,
    {
        &self.entries
    }

    /// Whether a file extension names a supported audio format.
    pub fn is_supported_audio_format(extension: &str) -> (r: bool)
        ensures
            r == spec_is_supported_audio(extension@),
    {
        is_supported_audio_format(extension)
    }
}

} // verus!
