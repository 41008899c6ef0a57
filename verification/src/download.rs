//! The unzip half of the download pipeline: read a ZIP archive held in
//! memory and flatten every entry name to its basename.
//!
//! Flattening is the safety rule against path traversal: whatever directories
//! a crafted entry name carries — `a/b/c.txt`, `../../etc/passwd`, trailing
//! slashes or `.` components — only the final name survives, and an entry
//! with no usable final name (empty, `..`) aborts the extraction. The caller joins each
//! returned name under the project directory and writes the bytes there; no
//! returned name contains a separator, so nothing can land outside it.
//!
//! The ZIP parsing itself is the `zip` crate's work, behind trusted wrappers;
//! what an archive holds is named by `zip_parse` and `zip_archive_entries`,
//! and everything after the calls is verified against those names.
use crate::codec::str_eq;
use vstd::prelude::*;
use vstd::string::StringExecFns;
use vstd::string::StrSliceExecFns;
use vstd::string::StringSliceAdditionalSpecFns;

verus! {

/// An in-memory reader the `zip` crate can seek in.
#[verifier::external_type_specification]
#[verifier::external_body]
#[verifier::reject_recursive_types(T)]
pub struct ExCursor<T>(std::io::Cursor<T>);

/// A ZIP archive opened for reading.
#[verifier::external_type_specification]
#[verifier::external_body]
#[verifier::reject_recursive_types(R)]
pub struct ExZipArchive<R>(zip::ZipArchive<R>);

/// What a ZIP archive holds: its entries in order, each a name and the
/// entry's decompressed bytes.
pub uninterp spec fn zip_archive_entries(z: zip::ZipArchive<std::io::Cursor<Vec<u8>>>) -> Seq<
    (Seq<char>, Seq<u8>),
>;

/// What `zip::ZipArchive::new` makes of a byte string: `Some` of the entries
/// exactly when the bytes parse as a ZIP archive. Parsing is a function of
/// the bytes alone.
pub uninterp spec fn zip_parse(bytes: Seq<u8>) -> Option<Seq<(Seq<char>, Seq<u8>)>>;

/// Whether entry `i` of an archive can be read out: its record is sound and
/// its compression method is supported. Determined by the archive's metadata
/// and underlying bytes; the cursor position plays no part.
pub uninterp spec fn zip_entry_ok(z: zip::ZipArchive<std::io::Cursor<Vec<u8>>>, i: int) -> bool;

/// Whether every entry of the archive these bytes parse as can be read out.
/// Like `zip_parse`, a function of the bytes alone.
pub uninterp spec fn zip_all_entries_ok(bytes: Seq<u8>) -> bool;

/// Relies on `zip::ZipArchive::new` over an in-memory cursor: `Ok` exactly
/// when the bytes parse as a ZIP archive, holding that archive's entries;
/// the error's display text otherwise. Which entries of the opened archive
/// are readable is a function of the bytes, named by `zip_all_entries_ok`.
#[verifier::external_body]
fn zip_open(bytes: Vec<u8>) -> (r: Result<zip::ZipArchive<std::io::Cursor<Vec<u8>>>, String>)
    ensures
        r is Ok <==> zip_parse(bytes@) is Some,
        r matches Ok(z) ==> zip_parse(bytes@) == Some(zip_archive_entries(z)),
        r matches Ok(z) ==> (zip_all_entries_ok(bytes@) <==> (forall|i: int|
            0 <= i < zip_archive_entries(z).len() ==> zip_entry_ok(z, i))),
{
    zip::ZipArchive::new(std::io::Cursor::new(bytes)).map_err(|e| e.to_string())
}

/// Relies on `zip::ZipArchive::len`: the number of entries in the archive.
#[verifier::external_body]
fn zip_len(z: &zip::ZipArchive<std::io::Cursor<Vec<u8>>>) -> (n: usize)
    ensures
        n == zip_archive_entries(*z).len(),
{
    z.len()
}

/// Relies on `zip::ZipArchive::by_index`, `name` and `Read::read_to_end`:
/// succeeds exactly when the entry is readable (a sound record, a supported
/// method — `zip_entry_ok`), returning the entry's name and decompressed
/// bytes, exactly the archive's entry at that index; the library's message
/// otherwise. Reading seeks inside the cursor but changes neither the
/// entries nor which of them are readable.
#[verifier::external_body]
fn zip_entry(z: &mut zip::ZipArchive<std::io::Cursor<Vec<u8>>>, i: usize) -> (r: Result<
    (String, Vec<u8>),
    String,
>)
    requires
        i < zip_archive_entries(*old(z)).len(),
    ensures
        zip_archive_entries(*final(z)) == zip_archive_entries(*old(z)),
        forall|j: int| zip_entry_ok(*final(z), j) == zip_entry_ok(*old(z), j),
        r is Ok <==> zip_entry_ok(*old(z), i as int),
        r matches Ok(e) ==> (e.0@, e.1@) == zip_archive_entries(*old(z))[i as int],
{
    match z.by_index(i) {
        Ok(mut f) => {
            let name = f.name().to_string();
            let mut data = Vec::new();
            match std::io::Read::read_to_end(&mut f, &mut data) {
                Ok(_) => Ok((name, data)),
                Err(e) => Err(e.to_string()),
            }
        },
        Err(e) => Err(e.to_string()),
    }
}

/// An entry name with its trailing separators and trailing `.` components
/// removed: the tail that names no file, since a path like `foo.txt/.//`
/// still names `foo.txt`. A trailing `.` is a component of its own only when
/// a separator precedes it (or it is the whole name); `..` and names such as
/// `a.` are left alone.
pub open spec fn strip_trailing_junk(s: Seq<char>) -> Seq<char>
    decreases s.len(),
{
    if s.len() == 0 {
        s
    } else if s.last() == '/' {
        strip_trailing_junk(s.drop_last())
    } else if s.last() == '.' && (s.len() == 1 || s[s.len() - 2] == '/') {
        strip_trailing_junk(s.drop_last())
    } else {
        s
    }
}

/// The suffix after the last separator.
pub open spec fn after_last_slash(s: Seq<char>) -> Seq<char>
    decreases s.len(),
{
    if s.len() == 0 {
        s
    } else if s.last() == '/' {
        Seq::empty()
    } else {
        after_last_slash(s.drop_last()).push(s.last())
    }
}

/// A name free of path separators.
pub open spec fn no_slashes(name: Seq<char>) -> bool {
    forall|k: int| 0 <= k < name.len() ==> name[k] != '/'
}

/// The flattening rule: drop the trailing separators and `.` components,
/// keep what follows the last remaining separator, and reject a name with
/// nothing left or whose final component is `..` — such an entry has no
/// usable file name.
pub open spec fn spec_flatten(name: Seq<char>) -> Option<Seq<char>> {
    let trimmed = strip_trailing_junk(name);
    if trimmed.len() == 0 {
        None
    } else {
        let base = after_last_slash(trimmed);
        if base == ".."@ {
            None
        } else {
            Some(base)
        }
    }
}

/// What stands after the last separator never contains one.
proof fn lemma_after_last_slash_no_slash(s: Seq<char>)
    ensures
        forall|k: int| 0 <= k < after_last_slash(s).len() ==> after_last_slash(s)[k] != '/',
        after_last_slash(s).len() <= s.len(),
    decreases s.len(),
{
    if s.len() > 0 && s.last() != '/' {
        lemma_after_last_slash_no_slash(s.drop_last());
    }
}

/// Dropping one trailing junk character commutes with stripping: the strip
/// of a name equals the strip of the name without its last character when
/// that character is a separator or a lone-`.` component.
proof fn lemma_strip_step(s: Seq<char>, end: int)
    requires
        0 < end <= s.len(),
        s[end - 1] == '/' || (s[end - 1] == '.' && (end == 1 || s[end - 2] == '/')),
    ensures
        strip_trailing_junk(s.subrange(0, end)) == strip_trailing_junk(s.subrange(0, end - 1)),
{
    let cur = s.subrange(0, end);
    assert(cur.last() == s[end - 1]);
    if end > 1 {
        assert(cur[end - 2] == s[end - 2]);
    }
    assert(cur.drop_last() =~= s.subrange(0, end - 1));
}

/// A name ending in neither a separator nor a lone-`.` component strips to
/// itself.
proof fn lemma_strip_fixpoint(t: Seq<char>)
    requires
        t.len() > 0,
        t.last() != '/',
        !(t.last() == '.' && (t.len() == 1 || t[t.len() - 2] == '/')),
    ensures
        strip_trailing_junk(t) == t,
{
}

/// A sequence whose suffix from `start` is separator-free, with a separator
/// just before `start`, has exactly that suffix after its last separator.
proof fn lemma_after_characterized(s: Seq<char>, start: int)
    requires
        0 <= start <= s.len(),
        forall|k: int| start <= k < s.len() ==> s[k] != '/',
        start > 0 ==> s[start - 1] == '/',
    ensures
        after_last_slash(s) == s.subrange(start, s.len() as int),
    decreases s.len(),
{
    if s.len() == 0 {
        assert(s.subrange(0, 0) =~= s);
    } else if s.len() == start {
        assert(s.last() == '/');
        assert(s.subrange(start, s.len() as int) =~= Seq::<char>::empty());
    } else {
        assert(s.last() != '/');
        lemma_after_characterized(s.drop_last(), start);
        assert(s.drop_last().subrange(start, s.len() - 1) =~= s.subrange(start, s.len() - 1));
        assert(after_last_slash(s) =~= s.subrange(start, s.len() as int));
    }
}

/// Flatten one entry name to its basename. Returns exactly what
/// `spec_flatten` gives: `None` for a name with no usable final component,
/// otherwise the basename, which is non-empty and free of separators.
pub fn flatten_entry_name(name: &str) -> (r: Option<String>)
    ensures
        match r {
            Some(base) => spec_flatten(name@) == Some(base@) && base@.len() > 0 && no_slashes(
                base@,
            ),
            None => spec_flatten(name@) is None,
        },
{
    let n = name.unicode_len();
    let mut end: usize = n;
    proof {
        assert(name@.subrange(0, n as int) =~= name@);
    }
    while end > 0 && (name.get_char(end - 1) == '/' || (name.get_char(end - 1) == '.' && (end == 1
        || name.get_char(end - 2) == '/')))
        invariant
            end <= n == name@.len(),
            strip_trailing_junk(name@) == strip_trailing_junk(name@.subrange(0, end as int)),
        decreases end,
    {
        proof {
            lemma_strip_step(name@, end as int);
        }
        end = end - 1;
    }
    if end == 0 {
        proof {
            assert(name@.subrange(0, 0) =~= Seq::<char>::empty());
        }
        return None;
    }
    let ghost trimmed = name@.subrange(0, end as int);
    proof {
        lemma_strip_fixpoint(trimmed);
    }
    let mut start: usize = end;
    while start > 0 && name.get_char(start - 1) != '/'
        invariant
            start <= end <= name@.len(),
            forall|k: int| start <= k < end ==> name@[k] != '/',
        decreases start,
    {
        start = start - 1;
    }
    proof {
        assert(forall|k: int| start <= k < end ==> trimmed[k] != '/');
        lemma_after_characterized(trimmed, start as int);
        lemma_after_last_slash_no_slash(trimmed);
    }
    let base = name.substring_char(start, end).to_owned();
    proof {
        assert(base@ =~= after_last_slash(trimmed));
    }
    if str_eq(base.as_str(), "..") {
        return None;
    }
    Some(base)
}

/// Flattening a whole entry list: every name flattens to its basename, in
/// order, with the entry bytes carried along; one unusable name fails the
/// whole list.
pub open spec fn spec_flatten_entries(entries: Seq<(Seq<char>, Seq<u8>)>) -> Option<
    Seq<(Seq<char>, Seq<u8>)>,
>
    decreases entries.len(),
{
    if entries.len() == 0 {
        Some(Seq::empty())
    } else {
        match (spec_flatten_entries(entries.drop_last()), spec_flatten(entries.last().0)) {
            (Some(rest), Some(base)) => Some(rest.push((base, entries.last().1))),
            _ => None,
        }
    }
}

/// Once a prefix fails to flatten, the whole list fails.
proof fn lemma_flatten_entries_none_extends(entries: Seq<(Seq<char>, Seq<u8>)>, k: int)
    requires
        0 <= k <= entries.len(),
        spec_flatten_entries(entries.subrange(0, k)) is None,
    ensures
        spec_flatten_entries(entries) is None,
    decreases entries.len() - k,
{
    if k < entries.len() {
        assert(entries.subrange(0, k + 1).drop_last() =~= entries.subrange(0, k));
        lemma_flatten_entries_none_extends(entries, k + 1);
    } else {
        assert(entries.subrange(0, k) =~= entries);
    }
}

/// A fresh vector holding the same bytes.
fn copy_bytes(v: &Vec<u8>) -> (r: Vec<u8>)
    ensures
        r@ == v@,
{
    let mut out: Vec<u8> = Vec::new();
    let n = v.len();
    let mut i: usize = 0;
    while i < n
        invariant
            i <= n == v@.len(),
            out@ == v@.subrange(0, i as int),
        decreases n - i,
    {
        out.push(v[i]);
        proof {
            assert(out@ =~= v@.subrange(0, i + 1));
        }
        i = i + 1;
    }
    proof {
        assert(v@.subrange(0, n as int) =~= v@);
    }
    out
}

/// The view of an entry list.
pub open spec fn entries_view(entries: Seq<(String, Vec<u8>)>) -> Seq<(Seq<char>, Seq<u8>)> {
    entries.map(|i: int, e: (String, Vec<u8>)| (e.0@, e.1@))
}

/// Flatten a list of already-extracted entries: succeeds with every name
/// flattened to its basename exactly when every name has one, and fails on
/// the first entry with no usable file name, exactly as `spec_flatten_entries`
/// decides.
pub fn flatten_entries(entries: &Vec<(String, Vec<u8>)>) -> (r: Result<
    Vec<(String, Vec<u8>)>,
    String,
>)
    ensures
        match spec_flatten_entries(entries_view(entries@)) {
            Some(flat) => r matches Ok(out) && entries_view(out@) == flat,
            None => r matches Err(m) && m@ == "Invalid file name"@,
        },
        r matches Ok(out) ==> forall|i: int|
            0 <= i < out@.len() ==> no_slashes((#[trigger] out@[i].0)@) && out@[i].0@.len() > 0,
{
    let ghost orig = entries_view(entries@);
    let n = entries.len();
    let mut out: Vec<(String, Vec<u8>)> = Vec::new();
    let mut i: usize = 0;
    proof {
        assert(orig.subrange(0, 0) =~= Seq::<(Seq<char>, Seq<u8>)>::empty());
        assert(entries_view(out@) =~= Seq::<(Seq<char>, Seq<u8>)>::empty());
    }
    while i < n
        invariant
            i <= n == entries@.len(),
            orig == entries_view(entries@),
            spec_flatten_entries(orig.subrange(0, i as int)) == Some(entries_view(out@)),
            forall|j: int|
                0 <= j < out@.len() ==> no_slashes((#[trigger] out@[j].0)@) && out@[j].0@.len()
                    > 0,
        decreases n - i,
    {
        let flat = match flatten_entry_name(entries[i].0.as_str()) {
            Some(flat) => flat,
            None => {
                proof {
                    assert(orig.subrange(0, i + 1).drop_last() =~= orig.subrange(0, i as int));
                    assert(orig.subrange(0, i + 1).last() == orig[i as int]);
                    lemma_flatten_entries_none_extends(orig, i + 1);
                }
                return Err(invalid_file_name_message());
            },
        };
        let data = copy_bytes(&entries[i].1);
        out.push((flat, data));
        proof {
            assert(orig.subrange(0, i + 1).drop_last() =~= orig.subrange(0, i as int));
            assert(orig.subrange(0, i + 1).last() == orig[i as int]);
            assert(entries_view(out@) =~= spec_flatten_entries(
                orig.subrange(0, i + 1),
            ).unwrap());
        }
        i = i + 1;
    }
    proof {
        assert(orig.subrange(0, n as int) =~= orig);
    }
    Ok(out)
}

/// Read a ZIP archive held in memory and flatten every entry to its
/// basename: on success, one `(name, bytes)` pair per entry, in order, where
/// each name is the non-empty, separator-free basename of the entry's name
/// and the bytes are the entry's decompressed contents. Joined under the
/// project directory, such names cannot reach outside it. Fails when the
/// bytes are not a ZIP archive, when an entry cannot be read, or when an
/// entry has no usable file name, and the message says which; success is
/// owed whenever the bytes parse, every entry is readable and every name
/// flattens.
#[verifier::loop_isolation(false)]
pub fn unzip_flattened(bytes: Vec<u8>) -> (r: Result<Vec<(String, Vec<u8>)>, String>)
    ensures
        zip_parse(bytes@) is None ==> r is Err,
        (zip_parse(bytes@) matches Some(entries) && spec_flatten_entries(entries) is None) ==> r
            is Err,
        (zip_parse(bytes@) matches Some(entries) && spec_flatten_entries(entries) is Some
            && zip_all_entries_ok(bytes@)) ==> r is Ok,
        r matches Ok(out) ==> (zip_parse(bytes@) matches Some(entries) && spec_flatten_entries(
            entries,
        ) == Some(entries_view(out@))),
        r matches Ok(out) ==> forall|i: int|
            0 <= i < out@.len() ==> no_slashes((#[trigger] out@[i].0)@) && out@[i].0@.len() > 0,
{
    let ghost given = bytes@;
    let mut zip = match zip_open(bytes) {
        Ok(zip) => zip,
        Err(e) => {
            return Err(e);
        },
    };
    let n = zip_len(&zip);
    let ghost opened = zip;
    let ghost entries = zip_archive_entries(zip);
    let mut out: Vec<(String, Vec<u8>)> = Vec::new();
    let mut i: usize = 0;
    proof {
        assert(entries.subrange(0, 0) =~= Seq::<(Seq<char>, Seq<u8>)>::empty());
        assert(entries_view(out@) =~= Seq::<(Seq<char>, Seq<u8>)>::empty());
    }
    while i < n
        invariant
            zip_archive_entries(zip) == entries,
            forall|j: int| zip_entry_ok(zip, j) == zip_entry_ok(opened, j),
            zip_all_entries_ok(given) <==> (forall|j: int|
                0 <= j < entries.len() ==> zip_entry_ok(opened, j)),
            n == entries.len(),
            i <= n,
            spec_flatten_entries(entries.subrange(0, i as int)) == Some(entries_view(out@)),
            forall|j: int|
                0 <= j < out@.len() ==> no_slashes((#[trigger] out@[j].0)@) && out@[j].0@.len()
                    > 0,
        decreases n - i,
    {
        let (entry_name, data) = match zip_entry(&mut zip, i) {
            Ok(e) => e,
            Err(e) => {
                proof {
                    // The entry is unreadable, so success was not owed.
                    assert(!zip_entry_ok(opened, i as int));
                    assert(!zip_all_entries_ok(given));
                }
                return Err(e);
            },
        };
        let flat = match flatten_entry_name(entry_name.as_str()) {
            Some(flat) => flat,
            None => {
                proof {
                    assert(entries.subrange(0, i + 1).drop_last() =~= entries.subrange(
                        0,
                        i as int,
                    ));
                    assert(entries.subrange(0, i + 1).last() == entries[i as int]);
                    lemma_flatten_entries_none_extends(entries, i + 1);
                }
                return Err(invalid_file_name_message());
            },
        };
        out.push((flat, data));
        proof {
            assert(entries.subrange(0, i + 1).drop_last() =~= entries.subrange(0, i as int));
            assert(entries.subrange(0, i + 1).last() == entries[i as int]);
            assert(entries_view(out@) =~= spec_flatten_entries(
                entries.subrange(0, i + 1),
            ).unwrap());
        }
        i = i + 1;
    }
    proof {
        assert(entries.subrange(0, n as int) =~= entries);
    }
    Ok(out)
}

/// The message an entry with no usable file name aborts with.
fn invalid_file_name_message() -> (r: String)
    ensures
        r@ == "Invalid file name"@,
{
    String::from_str("Invalid file name")
}

} // verus!
