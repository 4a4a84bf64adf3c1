//! The database locator.
//!
//! Given the prepared per-user data directory, derives the on-disk path
//! of the application's database file and the connection descriptor
//! string the embedded-database driver consumes. The descriptor is the
//! scheme prefix followed by the absolute path verbatim, so every path,
//! spaces and non-ASCII characters included, is carried through
//! unambiguously.

use vstd::prelude::*;

verus! {

/// The name of the application's sole database file.
pub open spec fn database_file_name_text() -> Seq<char> {
    "hakawati.db"@
}

/// The scheme prefix of a connection descriptor.
pub open spec fn descriptor_prefix() -> Seq<char> {
    "sqlite:"@
}

/// The descriptor that opens the file at `path`: the scheme prefix
/// followed by the path verbatim.
pub open spec fn descriptor_text(path: Seq<char>) -> Seq<char> {
    descriptor_prefix() + path
}

/// The database file path under the data directory `dir`.
pub open spec fn database_path_text(dir: Seq<char>) -> Seq<char> {
    dir + "/"@ + database_file_name_text()
}

/// The name of the application's database file.
pub fn database_file_name() -> (name: &'static str)
    ensures
        name@ == database_file_name_text(),
{
    "hakawati.db"
}

/// Joins the data directory path with the database file name.
pub fn database_path(dir: &str) -> (path: String)
    ensures
        path@ == database_path_text(dir@),
{
    let mut path = String::from_str(dir);
    path.append("/");
    path.append("hakawati.db");
    path
}

/// Builds the connection descriptor for the database file at `path`.
pub fn connection_descriptor(path: &str) -> (descriptor: String)
    ensures
        descriptor@ == descriptor_text(path@),
{
    let mut descriptor = String::from_str("sqlite:");
    descriptor.append(path);
    descriptor
}

/// Descriptor fidelity: a descriptor determines the exact file path it
/// was built from. The path is recovered by dropping the scheme prefix,
/// so two distinct paths never yield the same descriptor, whatever
/// characters they contain.
pub proof fn lemma_descriptor_fidelity(path: Seq<char>)
    ensures
        descriptor_text(path).skip(7) == path,
        descriptor_text(path).take(7) == descriptor_prefix(),
{
    reveal_strlit("sqlite:");
    assert(descriptor_prefix().len() == 7);
    assert(descriptor_text(path).skip(7) =~= path);
    assert(descriptor_text(path).take(7) =~= descriptor_prefix());
}

/// Two distinct paths yield two distinct descriptors.
pub proof fn lemma_descriptor_injective(path_a: Seq<char>, path_b: Seq<char>)
    requires
        path_a != path_b,
    ensures
        descriptor_text(path_a) != descriptor_text(path_b),
{
    lemma_descriptor_fidelity(path_a);
    lemma_descriptor_fidelity(path_b);
    if descriptor_text(path_a) == descriptor_text(path_b) {
        assert(descriptor_text(path_a).skip(7) == descriptor_text(path_b).skip(7));
    }
}

} // verus!
