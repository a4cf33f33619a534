//! Package archives: reading a zip container (through the `zip` crate)
//! and turning it into a screened extraction plan.
//!
//! The archive bytes are parsed by the outside crate; every entry name
//! is then screened here, so an accepted plan only ever names paths
//! that stay under the extraction target. Writing the planned files to
//! disk is the embedding program's job.
//!
//! The container is held in a `Cursor` over the owned bytes, so whether
//! parsing succeeds, and whether each entry can be opened and
//! decompressed, are functions of the bytes alone; those outcomes are
//! named below and the planner's contract promises a plan exactly when
//! every entry is safe and reads cleanly.

use vstd::prelude::*;

use crate::errors::AppError;
use crate::textspec::{safe_archive_path, str_has_char, str_has_parent_component, str_is_absolute};
use std::io::Read;

verus! {

#[verifier::external_type_specification]
#[verifier::external_body]
#[verifier::reject_recursive_types(R)]
pub struct ExZipArchive<R>(zip::ZipArchive<R>);

#[verifier::external_type_specification]
#[verifier::external_body]
#[verifier::reject_recursive_types(T)]
pub struct ExCursor<T>(std::io::Cursor<T>);

/// Whether the bytes parse as a zip container (a central directory is
/// found and read). Parsing reads from an in-memory cursor, so the
/// outcome is a function of the bytes alone.
pub uninterp spec fn zip_parses(bytes: Seq<u8>) -> bool;

/// The entry names a parsed archive holds, in archive order. They are a
/// function of the archive value alone (the zip central directory).
pub uninterp spec fn zip_entry_names(a: zip::ZipArchive<std::io::Cursor<Vec<u8>>>) -> Seq<
    Seq<char>,
>;

/// The decompressed contents of each entry, in archive order (empty for
/// directory entries). A function of the archive value alone.
pub uninterp spec fn zip_entry_data(a: zip::ZipArchive<std::io::Cursor<Vec<u8>>>) -> Seq<Seq<u8>>;

/// Whether entry `i` can be opened: its local header is consistent and
/// its compression and encryption are supported. Decided by the
/// central directory and the underlying bytes, so a function of the
/// archive value alone.
pub uninterp spec fn zip_entry_accessible(
    a: zip::ZipArchive<std::io::Cursor<Vec<u8>>>,
    i: int,
) -> bool;

/// Whether entry `i` can be opened and decompresses cleanly to the end.
/// Like [`zip_entry_accessible`], a function of the archive value
/// alone.
pub uninterp spec fn zip_entry_readable(
    a: zip::ZipArchive<std::io::Cursor<Vec<u8>>>,
    i: int,
) -> bool;

/// Relies on `zip::ZipArchive::new`: parses the container's central
/// directory from the given bytes, succeeding exactly when the bytes
/// are a well-formed container (`zip_parses`). Every entry has a name
/// and contents, so the two sequences have one element per entry.
#[verifier::external_body]
fn open_zip(bytes: Vec<u8>) -> (r: Result<zip::ZipArchive<std::io::Cursor<Vec<u8>>>, String>)
    ensures
        r is Ok <==> zip_parses(bytes@),
        r matches Ok(a) ==> zip_entry_names(a).len() == zip_entry_data(a).len(),
{
    match zip::ZipArchive::new(std::io::Cursor::new(bytes)) {
        Ok(a) => Ok(a),
        Err(e) => Err(e.to_string()),
    }
}

/// Relies on `zip::ZipArchive::len`: the number of entries in the
/// central directory.
#[verifier::external_body]
fn zip_len(a: &zip::ZipArchive<std::io::Cursor<Vec<u8>>>) -> (r: usize)
    ensures
        r == zip_entry_names(*a).len(),
{
    a.len()
}

/// Relies on `zip::ZipArchive::by_index` and `zip::ZipFile::name`: the
/// stored name of entry `i`, returned exactly when the entry can be
/// opened (the name itself sits in metadata and cannot fail once the
/// entry is open). Reading moves the internal reader but the central
/// directory and the underlying bytes are untouched, so the entries'
/// names, contents, accessibility and readability are all unchanged.
#[verifier::external_body]
fn zip_entry_name(a: &mut zip::ZipArchive<std::io::Cursor<Vec<u8>>>, i: usize) -> (r: Result<
    String,
    String,
>)
    requires
        i < zip_entry_names(*old(a)).len(),
    ensures
        zip_entry_names(*final(a)) == zip_entry_names(*old(a)),
        zip_entry_data(*final(a)) == zip_entry_data(*old(a)),
        forall|j: int|
            #[trigger] zip_entry_accessible(*final(a), j) == zip_entry_accessible(*old(a), j),
        forall|j: int|
            #[trigger] zip_entry_readable(*final(a), j) == zip_entry_readable(*old(a), j),
        r is Ok <==> zip_entry_accessible(*old(a), i as int),
        r matches Ok(name) ==> name@ == zip_entry_names(*old(a))[i as int],
{
    match a.by_index(i) {
        Ok(f) => Ok(f.name().to_owned()),
        Err(e) => Err(e.to_string()),
    }
}

/// Relies on `zip::ZipArchive::by_index` and the `Read` impl of
/// `zip::ZipFile`: the decompressed contents of entry `i`, returned
/// exactly when the entry opens and decompresses cleanly. As with
/// [`zip_entry_name`], the archive's entries are unchanged.
#[verifier::external_body]
fn zip_entry_contents(a: &mut zip::ZipArchive<std::io::Cursor<Vec<u8>>>, i: usize) -> (r: Result<
    Vec<u8>,
    String,
>)
    requires
        i < zip_entry_names(*old(a)).len(),
    ensures
        zip_entry_names(*final(a)) == zip_entry_names(*old(a)),
        zip_entry_data(*final(a)) == zip_entry_data(*old(a)),
        forall|j: int|
            #[trigger] zip_entry_accessible(*final(a), j) == zip_entry_accessible(*old(a), j),
        forall|j: int|
            #[trigger] zip_entry_readable(*final(a), j) == zip_entry_readable(*old(a), j),
        r is Ok <==> zip_entry_readable(*old(a), i as int),
        r matches Ok(data) ==> data@ == zip_entry_data(*old(a))[i as int],
{
    match a.by_index(i) {
        Ok(mut f) => {
            let mut buf = Vec::new();
            match f.read_to_end(&mut buf) {
                Ok(_) => Ok(buf),
                Err(e) => Err(e.to_string()),
            }
        },
        Err(e) => Err(e.to_string()),
    }
}

/// A parsed plugin package.
pub struct PackageArchive {
    inner: zip::ZipArchive<std::io::Cursor<Vec<u8>>>,
}

/// One filesystem action of an extraction plan, with a path relative to
/// the extraction target.
pub enum ExtractAction {
    MakeDir(String),
    WriteFile(String, Vec<u8>),
}

/// Spec-level mirror of [`ExtractAction`].
pub ghost enum ExtractActionV {
    MakeDir(Seq<char>),
    WriteFile(Seq<char>, Seq<u8>),
}

impl View for ExtractAction {
    type V = ExtractActionV;

    open spec fn view(&self) -> ExtractActionV {
        match self {
            ExtractAction::MakeDir(p) => ExtractActionV::MakeDir(p@),
            ExtractAction::WriteFile(p, d) => ExtractActionV::WriteFile(p@, d@),
        }
    }
}

/// The target-relative path an action touches.
pub open spec fn action_path(a: ExtractActionV) -> Seq<char> {
    match a {
        ExtractActionV::MakeDir(p) => p,
        ExtractActionV::WriteFile(p, _) => p,
    }
}

/// An entry whose stored name ends in the separator is a directory
/// entry.
pub open spec fn is_dir_name(s: Seq<char>) -> bool {
    s.len() > 0 && s[s.len() - 1] == '/'
}

/// The action an entry with the given name and contents plans: create
/// the directory, or write the file verbatim.
pub open spec fn planned_action(name: Seq<char>, data: Seq<u8>) -> ExtractActionV {
    if is_dir_name(name) {
        ExtractActionV::MakeDir(name)
    } else {
        ExtractActionV::WriteFile(name, data)
    }
}

impl PackageArchive {
    /// The entry names of this package, in archive order.
    pub closed spec fn names(&self) -> Seq<Seq<char>> {
        zip_entry_names(self.inner)
    }

    /// The entry contents of this package, in archive order.
    pub closed spec fn contents(&self) -> Seq<Seq<u8>> {
        zip_entry_data(self.inner)
    }

    /// Whether entry `i` of this package can be opened.
    pub closed spec fn entry_accessible(&self, i: int) -> bool {
        zip_entry_accessible(self.inner, i)
    }

    /// Whether entry `i` of this package decompresses cleanly.
    pub closed spec fn entry_readable(&self, i: int) -> bool {
        zip_entry_readable(self.inner, i)
    }

    /// Every entry can be opened, and every file entry decompresses
    /// cleanly (a directory entry's contents are never read).
    pub open spec fn entries_ok(&self) -> bool {
        forall|i: int|
            0 <= i < self.names().len() ==> (#[trigger] self.entry_accessible(i) && (is_dir_name(
                self.names()[i],
            ) || self.entry_readable(i)))
    }

    /// Every entry name is safe to join under the extraction target.
    pub open spec fn entries_safe(&self) -> bool {
        forall|i: int|
            0 <= i < self.names().len() ==> safe_archive_path(#[trigger] self.names()[i])
    }

    /// Parses a package container from its raw bytes: succeeds exactly
    /// when the bytes are a well-formed zip container.
    pub fn open(bytes: Vec<u8>) -> (r: Result<Self, AppError>)
        ensures
            r is Ok <==> zip_parses(bytes@),
            r matches Ok(a) ==> a.names().len() == a.contents().len(),
            r matches Err(e) ==> e@ matches crate::errors::AppErrorV::Execution { .. },
    {
        match open_zip(bytes) {
            Ok(inner) => Ok(PackageArchive { inner }),
            Err(msg) => {
                let mut m = String::from_str("invalid zip archive: ");
                m.append(msg.as_str());
                Err(AppError::Execution(m))
            },
        }
    }

    /// Screens every entry of the package and plans its extraction: a
    /// plan comes back exactly when every entry reads cleanly and
    /// every entry name is safe to join under the extraction target.
    /// One unsafe name rejects the whole package with a validation
    /// error, and nothing is planned for it; an entry that cannot be
    /// read rejects it with an execution error.
    pub fn plan_extraction(&mut self) -> (r: Result<Vec<ExtractAction>, AppError>)
        ensures
            final(self).names() == old(self).names(),
            final(self).contents() == old(self).contents(),
            forall|j: int|
                #[trigger] final(self).entry_accessible(j) == old(self).entry_accessible(j),
            forall|j: int|
                #[trigger] final(self).entry_readable(j) == old(self).entry_readable(j),
            r is Ok <==> (old(self).entries_ok() && old(self).entries_safe()),
            r matches Ok(plan) ==> {
                &&& plan@.len() == old(self).names().len()
                &&& forall|k: int|
                    0 <= k < plan@.len() ==> (#[trigger] plan@[k])@ == planned_action(
                        old(self).names()[k],
                        old(self).contents()[k],
                    )
                &&& forall|k: int|
                    0 <= k < plan@.len() ==> safe_archive_path(action_path(#[trigger] plan@[k]@))
            },
            r is Err && old(self).entries_ok() ==> (r->Err_0)@
                matches crate::errors::AppErrorV::Validation { .. },
            r matches Err(e) ==> (e@ matches crate::errors::AppErrorV::Validation { .. } || e@
                matches crate::errors::AppErrorV::Execution { .. }),
    {
        let ghost names = self.names();
        let ghost contents = self.contents();
        let n = zip_len(&self.inner);
        let mut plan: Vec<ExtractAction> = Vec::new();
        let mut i: usize = 0;
        while i < n
            invariant
                i <= n,
                n == names.len(),
                names == old(self).names(),
                contents == old(self).contents(),
                zip_entry_names(self.inner) == names,
                zip_entry_data(self.inner) == contents,
                forall|j: int|
                    #[trigger] zip_entry_accessible(self.inner, j) == old(self).entry_accessible(
                        j,
                    ),
                forall|j: int|
                    #[trigger] zip_entry_readable(self.inner, j) == old(self).entry_readable(j),
                plan@.len() == i,
                forall|k: int|
                    0 <= k < i ==> (#[trigger] plan@[k])@ == planned_action(names[k], contents[k]),
                forall|k: int| 0 <= k < i ==> safe_archive_path(#[trigger] names[k]),
                forall|k: int| 0 <= k < i ==> old(self).entry_accessible(k),
                forall|k: int|
                    0 <= k < i ==> (is_dir_name(#[trigger] names[k]) || old(self).entry_readable(
                        k,
                    )),
            decreases n - i,
        {
            let name = match zip_entry_name(&mut self.inner, i) {
                Ok(name) => name,
                Err(msg) => {
                    proof {
                        assert(!old(self).entry_accessible(i as int));
                        assert(!old(self).entries_ok());
                    }
                    let mut m = String::from_str("failed to read archive entry: ");
                    m.append(msg.as_str());
                    return Err(AppError::Execution(m));
                },
            };
            let unsafe_name = name.as_str().unicode_len() == 0 || str_is_absolute(name.as_str())
                || str_has_parent_component(name.as_str()) || str_has_char(name.as_str(), '\\');
            if unsafe_name {
                proof {
                    assert(!safe_archive_path(old(self).names()[i as int]));
                    assert(!old(self).entries_safe());
                }
                return Err(AppError::Validation(String::from_str("unsafe path in archive")));
            }
            assert(safe_archive_path(names[i as int]));
            let nlen = name.as_str().unicode_len();
            if name.as_str().get_char(nlen - 1) == '/' {
                assert(is_dir_name(names[i as int]));
                plan.push(ExtractAction::MakeDir(name));
            } else {
                assert(!is_dir_name(names[i as int]));
                let data = match zip_entry_contents(&mut self.inner, i) {
                    Ok(data) => data,
                    Err(msg) => {
                        proof {
                            assert(!old(self).entry_readable(i as int));
                            assert(!old(self).entries_ok());
                        }
                        let mut m = String::from_str("failed to read archive entry: ");
                        m.append(msg.as_str());
                        return Err(AppError::Execution(m));
                    },
                };
                plan.push(ExtractAction::WriteFile(name, data));
            }
            i += 1;
        }
        proof {
            assert forall|k: int|
                0 <= k < old(self).names().len() implies (#[trigger] old(self).entry_accessible(
                k,
            ) && (is_dir_name(old(self).names()[k]) || old(self).entry_readable(k))) by {
                assert(names[k] == old(self).names()[k]);
            }
            assert forall|k: int|
                0 <= k < old(self).names().len() implies safe_archive_path(
                #[trigger] old(self).names()[k],
            ) by {
                assert(names[k] == old(self).names()[k]);
            }
        }
        Ok(plan)
    }
}

} // verus!
