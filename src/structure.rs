use vstd::prelude::*;
use vstd::string::*;

verus! {

pub uninterp spec fn lower_of(s: Seq<char>) -> Seq<char>;

/// Relies on `str::to_lowercase`: the result depends on the characters alone.
#[verifier::external_body]
fn lowercase(s: &str) -> (r: String)
    ensures
        r@ == lower_of(s@),
{
    s.to_lowercase()
}

/// The shard of an already lowercased package name: its first two characters.
pub open spec fn shard_of_lowercase(lower: Seq<char>) -> Seq<char> {
    if lower.len() < 2 {
        lower
    } else {
        lower.subrange(0, 2)
    }
}

/// The directory under `pkgs/by-name` that holds the packages of one shard.
pub open spec fn spec_shard_for_package(name: Seq<char>) -> Seq<char> {
    shard_of_lowercase(lower_of(name))
}

pub open spec fn spec_relative_dir_for_package(name: Seq<char>) -> Seq<char> {
    "pkgs/by-name/"@ + spec_shard_for_package(name) + "/"@ + name
}

pub open spec fn spec_relative_file_for_package(name: Seq<char>) -> Seq<char> {
    spec_relative_dir_for_package(name) + "/package.nix"@
}

/// The shard of a package name that has already been lowercased.
pub fn shard_from_lowercase(lower: &str) -> (r: String)
    ensures
        r@ == shard_of_lowercase(lower@),
{
    let n = lower.unicode_len();
    let k: usize = if n < 2 {
        n
    } else {
        2
    };
    let r = lower.substring_char(0, k).to_owned();
    assert(lower@.subrange(0, lower@.len() as int) =~= lower@);
    r
}

/// The two-character shard directory of a package: its name lowercased, cut to
/// two characters.
pub fn shard_for_package(name: &str) -> (r: String)
    ensures
        r@ == spec_shard_for_package(name@),
{
    let lower = lowercase(name);
    shard_from_lowercase(lower.as_str())
}

/// The directory of a package under `pkgs/by-name`, e.g. `pkgs/by-name/he/hello`.
pub fn relative_dir_for_package(name: &str) -> (r: String)
    ensures
        r@ == spec_relative_dir_for_package(name@),
{
    let mut r = String::from_str("pkgs/by-name/");
    let shard = shard_for_package(name);
    r.append(shard.as_str());
    r.append("/");
    r.append(name);
    r
}

/// The file that defines a package under `pkgs/by-name`.
pub fn relative_file_for_package(name: &str) -> (r: String)
    ensures
        r@ == spec_relative_file_for_package(name@),
{
    let mut r = relative_dir_for_package(name);
    r.append("/package.nix");
    r
}

} // verus!
