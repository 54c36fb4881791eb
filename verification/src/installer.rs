//! The archive installer: it reads the asset name's extension (the characters
//! after the final `.`), and either unpacks the downloaded bytes as a zip
//! archive or writes them verbatim as a single executable file. Any other
//! extension, and a name without one, is refused before anything is written.

use vstd::prelude::*;

use crate::errors::AppError;

verus! {

/// The extension of a file name: the characters after the final `.`, or
/// `None` when the name holds no `.` at all.
pub open spec fn extension_of(s: Seq<char>) -> Option<Seq<char>>
    decreases s.len(),
{
    if s.len() == 0 {
        None
    } else if s.last() == '.' {
        Some(Seq::empty())
    } else {
        match extension_of(s.drop_last()) {
            Some(e) => Some(e.push(s.last())),
            None => None,
        }
    }
}

/// A name has an extension exactly when it holds a `.`.
pub proof fn lemma_no_dot_no_extension(s: Seq<char>)
    ensures
        extension_of(s) is None <==> (forall|j: int| 0 <= j < s.len() ==> s[j] != '.'),
    decreases s.len(),
{
    if s.len() == 0 {
    } else if s.last() == '.' {
        assert(s[s.len() - 1] == '.');
    } else {
        lemma_no_dot_no_extension(s.drop_last());
        assert(forall|j: int| 0 <= j < s.len() - 1 ==> s.drop_last()[j] == s[j]);
        if extension_of(s) is None {
            assert(forall|j: int| 0 <= j < s.len() ==> s[j] != '.') by {
                assert(forall|j: int| 0 <= j < s.len() - 1 ==> s[j] == s.drop_last()[j]);
            }
        }
    }
}

/// When the final `.` of the name stands at `i`, the extension is exactly the
/// characters after `i`.
pub proof fn lemma_extension_at_dot(s: Seq<char>, i: int)
    requires
        0 <= i < s.len(),
        s[i] == '.',
        forall|j: int| i < j < s.len() ==> s[j] != '.',
    ensures
        extension_of(s) == Some(s.subrange(i + 1, s.len() as int)),
    decreases s.len(),
{
    if i == s.len() - 1 {
        assert(s.last() == '.');
        assert(s.subrange(i + 1, s.len() as int) =~= Seq::<char>::empty());
    } else {
        assert(s.last() != '.');
        assert(forall|j: int| 0 <= j < s.len() - 1 ==> s.drop_last()[j] == s[j]);
        lemma_extension_at_dot(s.drop_last(), i);
        assert(s.drop_last().subrange(i + 1, s.len() - 1).push(s.last()) =~= s.subrange(
            i + 1,
            s.len() as int,
        ));
    }
}

/// Reads the extension off a file name: the characters after the final `.`,
/// or `None` when the name holds none.
pub fn split_extension(name: &str) -> (r: Option<String>)
    ensures
        match r {
            Some(ext) => extension_of(name@) == Some(ext@),
            None => extension_of(name@) is None,
        },
{
    let n: usize = name.unicode_len();
    let mut i: usize = n;
    while i > 0
        invariant
            i <= n,
            n == name@.len(),
            forall|j: int| i <= j < n ==> name@[j] != '.',
        decreases i,
    {
        i = i - 1;
        if name.get_char(i) == '.' {
            let ext = name.substring_char(i + 1, n);
            proof {
                lemma_extension_at_dot(name@, i as int);
            }
            return Some(String::from_str(ext));
        }
    }
    proof {
        lemma_no_dot_no_extension(name@);
    }
    None
}

/// One entry of a zip archive: its relative path as stored in the archive
/// (directories end in `/`), and its decompressed bytes.
pub struct ZipEntry {
    pub name: String,
    pub data: Vec<u8>,
}

/// The mathematical content of an entry list: each entry as its name and its
/// bytes.
pub open spec fn entry_views(s: Seq<ZipEntry>) -> Seq<(Seq<char>, Seq<u8>)> {
    s.map_values(|e: ZipEntry| (e.name@, e.data@))
}

/// What a byte string holds as a zip archive: the entries in central-directory
/// order (later entries shadow earlier ones of the same name), or nothing when
/// the bytes are not a fully readable archive. The value is fixed by the bytes
/// alone.
pub uninterp spec fn zip_parse(data: Seq<u8>) -> Option<Seq<(Seq<char>, Seq<u8>)>>;

/// Relies on zip's `ZipArchive`: `new` parses the central directory of the
/// byte string, and `by_index` with `read_to_end` hands out each entry's name
/// and decompressed bytes in central-directory order; the outcome is a
/// function of the bytes alone.
#[verifier::external_body]
fn read_zip_entries(data: &Vec<u8>) -> (r: Option<Vec<ZipEntry>>)
    ensures
        match r {
            Some(es) => zip_parse(data@) == Some(entry_views(es@)),
            None => zip_parse(data@) is None,
        },
{
    let mut zip = zip::ZipArchive::new(std::io::Cursor::new(data.as_slice())).ok()?;
    let mut out: Vec<ZipEntry> = Vec::new();
    for i in 0..zip.len() {
        let mut file = zip.by_index(i).ok()?;
        let name = file.name().to_string();
        let mut bytes: Vec<u8> = Vec::new();
        std::io::Read::read_to_end(&mut file, &mut bytes).ok()?;
        out.push(ZipEntry { name, data: bytes });
    }
    Some(out)
}

/// Unpacks a downloaded zip asset into its entry list; unreadable bytes are a
/// fatal extraction error.
pub fn extract_entries(data: &Vec<u8>) -> (r: Result<Vec<ZipEntry>, AppError>)
    ensures
        match r {
            Ok(es) => zip_parse(data@) == Some(entry_views(es@)),
            Err(e) => e is Extract && zip_parse(data@) is None,
        },
{
    match read_zip_entries(data) {
        Some(es) => Ok(es),
        None => Err(AppError::Extract),
    }
}

/// What the installer decided to materialize: either every entry of a zip
/// archive, or one file written verbatim.
pub enum InstallPlan {
    Extract { entries: Vec<ZipEntry> },
    WriteFile { name: String, data: Vec<u8> },
}

/// The installer's whole contract: which plan or error `plan_install` returns
/// for an asset name and its downloaded bytes.
pub open spec fn install_outcome(
    name: Seq<char>,
    data: Seq<u8>,
    r: Result<InstallPlan, AppError>,
) -> bool {
    match extension_of(name) {
        None => r == Err::<InstallPlan, AppError>(AppError::Extension),
        Some(ext) => if ext == "zip"@ {
            match zip_parse(data) {
                Some(views) => (r matches Ok(InstallPlan::Extract { entries }) && entry_views(
                    entries@,
                ) == views),
                None => r == Err::<InstallPlan, AppError>(AppError::Extract),
            }
        } else if ext == "exe"@ {
            r matches Ok(InstallPlan::WriteFile { name: n, data: d }) && n@ == name && d@ == data
        } else {
            r matches Err(AppError::UnsupportedFormat { ext: x }) && x@ == ext
        },
    }
}

/// Decides how an asset is installed, from its display name and its bytes:
/// a `zip` asset becomes its entry list, an `exe` asset is written verbatim
/// under its own name, any other extension is refused, and a name without a
/// `.` is refused before anything else happens.
pub fn plan_install(name: &String, data: Vec<u8>) -> (r: Result<InstallPlan, AppError>)
    ensures
        install_outcome(name@, data@, r),
{
    let ext = match split_extension(name.as_str()) {
        Some(e) => e,
        None => {
            return Err(AppError::Extension);
        },
    };
    let zip_name = String::from_str("zip");
    let exe_name = String::from_str("exe");
    if ext == zip_name {
        match extract_entries(&data) {
            Ok(entries) => Ok(InstallPlan::Extract { entries }),
            Err(_) => Err(AppError::Extract),
        }
    } else if ext == exe_name {
        Ok(InstallPlan::WriteFile { name: name.clone(), data })
    } else {
        Err(AppError::UnsupportedFormat { ext })
    }
}

/// A name without a `.` is always refused with the missing-extension error,
/// whatever bytes were downloaded.
pub proof fn lemma_no_dot_is_refused(name: Seq<char>, data: Seq<u8>, r: Result<
    InstallPlan,
    AppError,
>)
    requires
        forall|j: int| 0 <= j < name.len() ==> name[j] != '.',
        install_outcome(name, data, r),
    ensures
        r == Err::<InstallPlan, AppError>(AppError::Extension),
{
    lemma_no_dot_no_extension(name);
}

/// An extension that is neither `zip` nor `exe` is always refused with the
/// unsupported-format error naming that extension, whatever bytes were
/// downloaded.
pub proof fn lemma_unknown_extension_is_refused(
    name: Seq<char>,
    data: Seq<u8>,
    ext: Seq<char>,
    r: Result<InstallPlan, AppError>,
)
    requires
        extension_of(name) == Some(ext),
        ext != "zip"@,
        ext != "exe"@,
        install_outcome(name, data, r),
    ensures
        r matches Err(AppError::UnsupportedFormat { ext: x }) && x@ == ext,
{
}

} // verus!
