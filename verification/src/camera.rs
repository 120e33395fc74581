//! How the daemon recognises a camera in use while it walks `/proc`: a
//! process directory has a numeric name, and a camera is a file descriptor
//! that links to a `/dev/video*` device.
use vstd::prelude::*;

use crate::number::{decimal_value, is_digit, parse_unsigned, parse_unsigned_spec, unsigned_digits};
use crate::text::chars_of;

verus! {

/// `name` reads as a `u32`, as the directories of running processes do.
pub open spec fn is_process_dir_name_spec(name: Seq<char>) -> bool {
    parse_unsigned_spec(name, u32::MAX as nat) is Some
}

/// `target` starts with `/dev/video`.
pub open spec fn is_video_device_spec(target: Seq<char>) -> bool {
    let prefix = "/dev/video"@;
    prefix.len() <= target.len() && target.subrange(0, prefix.len() as int) == prefix
}

/// Whether a `/proc` entry is the directory of a process.
pub fn is_process_dir_name(name: &str) -> (b: bool)
    ensures
        b == is_process_dir_name_spec(name@),
{
    parse_unsigned(name, u32::MAX as u64).is_some()
}

/// Whether a file descriptor's link target is a video device.
pub fn is_video_device(target: &str) -> (b: bool)
    ensures
        b == is_video_device_spec(target@),
{
    let t = chars_of(target);
    let p = chars_of("/dev/video");
    if p.len() > t.len() {
        return false;
    }
    let mut i: usize = 0;
    while i < p.len()
        invariant
            t@ == target@,
            p@ == "/dev/video"@,
            p.len() <= t.len(),
            0 <= i <= p.len(),
            forall|j: int| 0 <= j < i ==> t@[j] == p@[j],
        decreases p.len() - i,
    {
        if t[i] != p[i] {
            assert(t@.subrange(0, p@.len() as int)[i as int] != p@[i as int]);
            return false;
        }
        i = i + 1;
    }
    assert(t@.subrange(0, p@.len() as int) =~= p@);
    true
}

/// A `/proc` entry is a process directory exactly when its name is a run of
/// ASCII digits, with an optional leading `+`, whose value fits in a `u32`:
/// every pid up to 4294967295 is scanned.
pub proof fn lemma_process_dir_names(name: Seq<char>)
    ensures
        is_process_dir_name_spec(name) <==> {
            let d = unsigned_digits(name);
            &&& d.len() > 0
            &&& forall|i: int| 0 <= i < d.len() ==> is_digit(#[trigger] d[i])
            &&& decimal_value(d) <= 4294967295
        },
{
}

/// A link target is a video device exactly when it is `/dev/video` followed
/// by anything.
pub proof fn lemma_video_devices(target: Seq<char>)
    ensures
        is_video_device_spec(target) <==> exists|rest: Seq<char>| target == "/dev/video"@ + rest,
{
    let p = "/dev/video"@;
    if is_video_device_spec(target) {
        let rest = target.subrange(p.len() as int, target.len() as int);
        assert(target =~= p + rest);
    }
    if exists|rest: Seq<char>| target == p + rest {
        let rest = choose|rest: Seq<char>| target == p + rest;
        assert(target.subrange(0, p.len() as int) =~= p);
    }
}

} // verus!
