//! The service seams of the build tool, and the content check of
//! downloaded dependencies.
//!
//! The traits are implemented by callers that spawn the real
//! toolchain; the command handlers depend only on these seams. The
//! digest check is verified here: reading the file is the caller's
//! half, deciding whether its contents match the pinned hash is ours.

use sha1::Digest;
use vstd::prelude::*;

verus! {

/// A machine that can be built into a stored image or run directly.
pub trait CartesiMachine {
    /// Builds and stores a machine image holding `target_binary`.
    fn build(&self, target_binary: &str, dapp_fs: &str);

    /// Runs the machine on `target_binary` with the given images.
    fn run(&self, target_binary: &str, rootfs: &str, ram_image: &str, rom_image: &str, dapp_fs: &str);
}

/// The cargo toolchain.
pub trait Cargo {
    /// Creates a new binary crate named `target_bin`.
    fn create_new_binary_source(&self, target_bin: &str);

    /// Cross-compiles the guest binary.
    fn build_binary(&self);

    /// The package name of the crate in the working directory.
    fn package_name(&self) -> String;

    /// The release target directory of the cross-compilation.
    fn target_dir(&self) -> String;
}

/// Creation of file-system images suitable to mount in the machine.
pub trait FileSystem {
    /// Creates a file-system image of `size` blocks holding `files`
    /// and stores it in `output`.
    fn create(&self, files: &Vec<String>, size: Option<usize>, output: &str);

    /// Creates `path` and its parents.
    fn create_dir_all(&self, path: &str);
}

/// Download and verification of the machine images.
pub trait DependenciesDownloader {
    /// Downloads any dependency missing from `target_dir` and verifies
    /// its content hash.
    fn download_if_not_present_and_verify(&self, target_dir: &str);
}

/// Creation of static resources of a new crate.
pub trait ResourceCreator {
    /// Writes the packaged resources into `target_dir`.
    fn create(&self, target_dir: &str);
}

/// The SHA-1 digest of a byte sequence; the result depends on the
/// bytes alone.
pub uninterp spec fn sha1_of(bytes: Seq<u8>) -> Seq<u8>;

/// Relies on `sha1::Sha1` through the `Digest` trait: the twenty-byte
/// SHA-1 digest of the input, a function of the bytes alone.
#[verifier::external_body]
fn sha1_digest(bytes: &[u8]) -> (r: [u8; 20])
    ensures
        r@ == sha1_of(bytes@),
{
    sha1::Sha1::digest(bytes).into()
}

/// Whether the contents of a downloaded file hash to the expected
/// value of the dependency table.
pub fn digest_matches(contents: &[u8], expected: &[u8; 20]) -> (r: bool)
    ensures
        r == (sha1_of(contents@) == expected@),
{
    let actual = sha1_digest(contents);
    let mut i: usize = 0;
    while i < 20
        invariant
            i <= 20,
            actual@ == sha1_of(contents@),
            actual@.len() == 20,
            expected@.len() == 20,
            forall|j: int| 0 <= j < i ==> actual@[j] == expected@[j],
        decreases 20 - i,
    {
        if actual[i] != expected[i] {
            proof {
                assert(actual@[i as int] != expected@[i as int]);
            }
            return false;
        }
        i = i + 1;
    }
    proof {
        assert(actual@ =~= expected@);
    }
    true
}

} // verus!
