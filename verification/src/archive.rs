//! The archive that holds the parts of a document.

use vstd::prelude::*;

verus! {

/// The number that the eight bytes of `s` from position `i` on write, the
/// low byte first.
pub open spec fn le_u64(s: Seq<u8>, i: int) -> int {
    s[i] + s[i + 1] * 0x100 + s[i + 2] * 0x1_0000 + s[i + 3] * 0x100_0000 + s[i + 4]
        * 0x1_0000_0000 + s[i + 5] * 0x100_0000_0000 + s[i + 6] * 0x1_0000_0000_0000 + s[i + 7]
        * 0x100_0000_0000_0000
}

/// Whether every offset that an archive can record stays within 64 bits
/// when the archive is found shifted by up to its own length: no eight
/// bytes of it write a number that, with the length added, passes 64 bits.
pub open spec fn offsets_fit(archive: Seq<u8>) -> bool {
    forall|i: int|
        0 <= i && i + 8 <= archive.len() ==> #[trigger] le_u64(archive, i) + archive.len()
            <= u64::MAX
}

/// Checks that every offset that the archive can record stays within 64
/// bits when the archive is found shifted.
pub fn check_offsets(archive: &[u8]) -> (r: bool)
    ensures
        r == offsets_fit(archive@),
{
    let n = archive.len();
    if n < 8 {
        return true;
    }
    let mut i: usize = 0;
    while i <= n - 8
        invariant
            n == archive@.len(),
            n >= 8,
            0 <= i <= n - 7,
            forall|j: int| 0 <= j < i ==> #[trigger] le_u64(archive@, j) + n <= u64::MAX,
        decreases n - i,
    {
        let v: u64 = archive[i] as u64 + archive[i + 1] as u64 * 0x100 + archive[i + 2] as u64
            * 0x1_0000 + archive[i + 3] as u64 * 0x100_0000 + archive[i + 4] as u64
            * 0x1_0000_0000 + archive[i + 5] as u64 * 0x100_0000_0000 + archive[i + 6] as u64
            * 0x1_0000_0000_0000 + archive[i + 7] as u64 * 0x100_0000_0000_0000;
        assert(v == le_u64(archive@, i as int));
        if v > u64::MAX - n as u64 {
            return false;
        }
        i += 1;
    }
    true
}

/// The bytes of the member named `name` of the zip archive `archive`, `None`
/// where the archive cannot be read or holds no such member.
pub uninterp spec fn zip_member_bytes(archive: Seq<u8>, name: Seq<char>) -> Option<Seq<u8>>;

/// Opens the archive with `zip::ZipArchive::new` over a cursor on its bytes,
/// finds the member with `ZipArchive::by_name` and reads it to its end. The
/// outcome depends on the two arguments alone; the contract gives it a name
/// and claims nothing more.
///
/// The crate adds the distance by which it finds an archive shifted, which
/// is at most the length of the archive, to the offset that the archive
/// records for a member, which may be any eight bytes of it, and does not
/// check the sum. The condition leaves out every archive in which that sum
/// could pass 64 bits.
#[verifier::external_body]
pub(crate) fn zip_member(archive: &[u8], name: &str) -> (r: Result<Vec<u8>, zip::result::ZipError>)
    requires
        offsets_fit(archive@),
    ensures
        match r {
            Ok(bytes) => zip_member_bytes(archive@, name@) == Some(bytes@),
            Err(_) => zip_member_bytes(archive@, name@) is None,
        },
{
    let mut zip = zip::ZipArchive::new(std::io::Cursor::new(archive))?;
    let mut file = zip.by_name(name)?;
    let mut bytes = Vec::new();
    std::io::Read::read_to_end(&mut file, &mut bytes)?;
    Ok(bytes)
}

} // verus!
