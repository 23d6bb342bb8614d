//! Device selection: the camera is picked out of the scan results by an
//! advertised-name substring match, and addressed through fixed 128-bit
//! service and characteristic identifiers.

use vstd::prelude::*;

verus! {

/// Identifier of the camera's control service.
pub const CONTROL_SERVICE_UUID: u128 = 0x8000CC00_CC00_FFFF_FFFF_FFFFFFFFFFFF;

/// Identifier of the camera's location service.
pub const LOCATION_SERVICE_UUID: u128 = 0x8000DD00_DD00_FFFF_FFFF_FFFFFFFFFFFF;

/// Identifier of the location notify characteristic.
pub const LOCATION_CHARACTERISTIC_NOTIFY_UUID: u128 = 0x0000DD01_0000_1000_8000_00805F9B34FB;

/// Identifier of the location "info" characteristic, the one the encoded
/// record is written to.
pub const LOCATION_CHARACTERISTIC_INFO_UUID: u128 = 0x0000DD11_0000_1000_8000_00805F9B34FB;

/// Identifier of the location feature characteristic.
pub const LOCATION_CHARACTERISTIC_FEATURE_UUID: u128 = 0x0000DD21_0000_1000_8000_00805F9B34FB;

/// Identifier of the camera's pairing service.
pub const PAIRING_SERVICE_UUID: u128 = 0x8000EE00_EE00_FFFF_FFFF_FFFFFFFFFFFF;

/// Identifier of the pairing characteristic.
pub const PAIRING_CHARACTERISTIC_UUID: u128 = 0x0000EE01_0000_1000_8000_00805F9B34FB;

/// Identifier of the camera's remote-control service.
pub const REMOTE_CONTROL_SERVICE_UUID: u128 = 0x8000FF00_FF00_FFFF_FFFF_FFFFFFFFFFFF;

/// Identifier of the remote-control command characteristic.
pub const REMOTE_CONTROL_CHARACTERISTIC_COMMAND_UUID: u128 = 0x0000FF01_0000_1000_8000_00805F9B34FB;

/// Identifier of the remote-control notify characteristic.
pub const REMOTE_CONTROL_CHARACTERISTIC_NOTIFY_UUID: u128 = 0x0000FF02_0000_1000_8000_00805F9B34FB;

/// The ASCII bytes of the advertised-name substring that identifies the
/// target camera, "ILCE-7C".
pub open spec fn target_name() -> Seq<u8> {
    seq![0x49u8, 0x4cu8, 0x43u8, 0x45u8, 0x2du8, 0x37u8, 0x43u8]
}

/// The needle `needle` occurs in `hay` starting at position `i`.
pub open spec fn match_at(hay: Seq<u8>, needle: Seq<u8>, i: int) -> bool {
    &&& 0 <= i
    &&& i + needle.len() <= hay.len()
    &&& forall|j: int| 0 <= j < needle.len() ==> hay[i + j] == needle[j]
}

/// The needle `needle` occurs somewhere in `hay`.
pub open spec fn contains_bytes(hay: Seq<u8>, needle: Seq<u8>) -> bool {
    exists|i: int| match_at(hay, needle, i)
}

/// The target substring as bytes, for callers that hold the advertised name
/// outside the library.
pub fn target_camera_name() -> (r: Vec<u8>)
    ensures
        r@ == target_name(),
{
    let mut v: Vec<u8> = Vec::new();
    v.push(0x49);
    v.push(0x4c);
    v.push(0x43);
    v.push(0x45);
    v.push(0x2d);
    v.push(0x37);
    v.push(0x43);
    proof {
        assert(v@ =~= target_name());
    }
    v
}

/// Substring search: decides whether `needle` occurs anywhere in `hay`.
pub fn contains_subslice(hay: &Vec<u8>, needle: &Vec<u8>) -> (r: bool)
    ensures
        r == contains_bytes(hay@, needle@),
{
    if needle.len() == 0 {
        proof {
            assert(match_at(hay@, needle@, 0));
        }
        return true;
    }
    if needle.len() > hay.len() {
        return false;
    }
    let last: usize = hay.len() - needle.len();
    let mut i: usize = 0;
    while i <= last
        invariant
            hay@.len() <= usize::MAX,
            1 <= needle@.len() <= hay@.len(),
            last == hay@.len() - needle@.len(),
            i <= last + 1,
            forall|ii: int| 0 <= ii < i ==> !match_at(hay@, needle@, ii),
        decreases last + 1 - i,
    {
        let mut j: usize = 0;
        while j < needle.len() && hay[i + j] == needle[j]
            invariant
                hay@.len() <= usize::MAX,
                needle@.len() <= hay@.len(),
                i + needle@.len() <= hay@.len(),
                j <= needle@.len(),
                forall|jj: int| 0 <= jj < j ==> hay@[i + jj] == needle@[jj],
            decreases needle@.len() - j,
        {
            j = j + 1;
        }
        if j == needle.len() {
            proof {
                assert(match_at(hay@, needle@, i as int));
            }
            return true;
        }
        proof {
            assert(hay@[i + j] != needle@[j as int]);
            assert(!match_at(hay@, needle@, i as int));
        }
        i = i + 1;
    }
    proof {
        assert forall|ii: int| !match_at(hay@, needle@, ii) by {
            if 0 <= ii && ii + needle@.len() <= hay@.len() {
                assert(ii <= last);
                assert(ii < i);
            }
        }
    }
    false
}

/// Decides whether an advertised device name (as bytes) contains the target
/// camera's name substring.
pub fn name_matches_target(name: &Vec<u8>) -> (r: bool)
    ensures
        r == contains_bytes(name@, target_name()),
{
    let needle = target_camera_name();
    contains_subslice(name, &needle)
}

} // verus!
