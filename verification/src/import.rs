use vstd::prelude::*;
use vstd::string::StringExecFns;

use crate::text::{alphanumeric, hex_digits, is_alphanumeric, push_char, push_hex, trim_bounds, trimmed};

verus! {

/// Frame rate that imported videos are converted down to.
pub const MAX_FPS: u32 = 30;

/// Offset basis of the 64-bit FNV-1a hash.
pub const FNV_OFFSET: u64 = 0xcbf2_9ce4_8422_2325;

/// Prime of the 64-bit FNV-1a hash.
pub const FNV_PRIME: u64 = 0x0000_0100_0000_01b3;

/// Longest readable part of a stored file name, in characters.
pub const READABLE_LIMIT: usize = 48;

/// The largest size a converted video may have on a monitor.
#[derive(Clone, Copy, Debug, PartialEq, Eq, Structural)]
pub struct Target {
    pub width: u32,
    pub height: u32,
    pub fps: u32,
}

impl Target {
    /// The target for a monitor: its size rounded down to even numbers, which
    /// the encoder requires, at no more than thirty frames per second.
    pub fn for_monitor(width: u32, height: u32) -> (target: Self)
        ensures
            target.width == width - width % 2,
            target.height == height - height % 2,
            target.fps == MAX_FPS,
    {
        proof {
            assert(width & !1u32 == width - width % 2) by (bit_vector);
            assert(height & !1u32 == height - height % 2) by (bit_vector);
        }
        Self { width: width & !1, height: height & !1, fps: MAX_FPS }
    }
}

/// One byte folded into an FNV-1a hash.
pub open spec fn fnv_step(hash: u64, byte: u8) -> u64 {
    (((hash ^ (byte as u64)) as nat * FNV_PRIME as nat) % 0x1_0000_0000_0000_0000) as u64
}

/// The FNV-1a hash `hash` after folding in `bytes`, first byte first.
pub open spec fn fnv(hash: u64, bytes: Seq<u8>) -> u64
    decreases bytes.len(),
{
    if bytes.len() == 0 {
        hash
    } else {
        fnv(fnv_step(hash, bytes[0]), bytes.drop_first())
    }
}

/// Folding bytes in pieces gives the same hash as folding them at once, so
/// the key of a file does not depend on how it was read.
pub proof fn fnv_concatenates(hash: u64, first: Seq<u8>, second: Seq<u8>)
    ensures
        fnv(fnv(hash, first), second) == fnv(hash, first + second),
    decreases first.len(),
{
    if first.len() != 0 {
        fnv_concatenates(fnv_step(hash, first[0]), first.drop_first(), second);
        assert((first + second).drop_first() =~= first.drop_first() + second);
    }
}

/// The four bytes of `value`, least significant first.
pub open spec fn le_bytes(value: u32) -> Seq<u8> {
    seq![
        (value % 256) as u8,
        ((value / 256) % 256) as u8,
        ((value / 65536) % 256) as u8,
        (value / 16777216) as u8,
    ]
}

fn le_bytes_of(value: u32) -> (bytes: [u8; 4])
    ensures
        bytes@ == le_bytes(value),
{
    let bytes = [
        (value % 256) as u8,
        ((value / 256) % 256) as u8,
        ((value / 65536) % 256) as u8,
        (value / 16777216) as u8,
    ];
    proof {
        assert(bytes@ =~= le_bytes(value));
    }
    bytes
}

/// What the key of an imported file starts from: for a file that will be
/// converted, the target it is converted for, so that the same file converted
/// for two monitors gets two keys.
pub open spec fn key_seed(target: Target, adequate: bool) -> u64 {
    if adequate {
        FNV_OFFSET
    } else {
        fnv(FNV_OFFSET, le_bytes(target.width) + le_bytes(target.height) + le_bytes(target.fps))
    }
}

/// The running fingerprint of a file's contents.
pub struct ContentKey {
    hash: u64,
}

impl ContentKey {
    /// The fingerprint so far.
    pub closed spec fn value(self) -> u64 {
        self.hash
    }

    pub fn new(target: &Target, adequate: bool) -> (key: Self)
        ensures
            key.value() == key_seed(*target, adequate),
    {
        let mut key = ContentKey { hash: FNV_OFFSET };
        if !adequate {
            let width = le_bytes_of(target.width);
            let height = le_bytes_of(target.height);
            let fps = le_bytes_of(target.fps);
            key.mix(&width);
            key.mix(&height);
            key.mix(&fps);
            proof {
                fnv_concatenates(FNV_OFFSET, le_bytes(target.width), le_bytes(target.height));
                fnv_concatenates(
                    FNV_OFFSET,
                    le_bytes(target.width) + le_bytes(target.height),
                    le_bytes(target.fps),
                );
            }
        }
        key
    }

    /// Folds the next piece of the file into the fingerprint.
    pub fn mix(&mut self, bytes: &[u8])
        ensures
            final(self).value() == fnv(old(self).value(), bytes@),
    {
        let ghost start = self.hash;
        let mut i: usize = 0;
        proof {
            assert(bytes@.skip(0) =~= bytes@);
        }
        while i < bytes.len()
            invariant
                i <= bytes@.len(),
                fnv(start, bytes@) == fnv(self.hash, bytes@.skip(i as int)),
            decreases bytes@.len() - i,
        {
            proof {
                assert(bytes@.skip(i as int).drop_first() =~= bytes@.skip(i + 1));
            }
            self.hash = (self.hash ^ bytes[i] as u64).wrapping_mul(FNV_PRIME);
            i = i + 1;
        }
        proof {
            assert(bytes@.skip(0) =~= bytes@);
        }
    }

    pub fn finish(&self) -> (hash: u64)
        ensures
            hash == self.value(),
    {
        self.hash
    }
}

/// Characters a stored file name keeps from its source's name.
pub open spec fn kept(c: char) -> bool {
    alphanumeric(c) || c == '-' || c == '_' || c == ' '
}

/// The characters of `s` that a stored name keeps, in order.
pub open spec fn kept_chars(s: Seq<char>) -> Seq<char>
    decreases s.len(),
{
    if s.len() == 0 {
        Seq::empty()
    } else if kept(s.last()) {
        kept_chars(s.drop_last()).push(s.last())
    } else {
        kept_chars(s.drop_last())
    }
}

/// The first 48 characters of `s`, or all of them when there are fewer.
pub open spec fn at_most_readable(s: Seq<char>) -> Seq<char> {
    if s.len() <= READABLE_LIMIT {
        s
    } else {
        s.take(READABLE_LIMIT as int)
    }
}

/// The readable part of a stored name: the kept characters of the source's
/// stem, at most 48 of them, trimmed; `wallpaper` when nothing is left.
pub open spec fn readable_part(stem: Seq<char>) -> Seq<char> {
    let part = trimmed(at_most_readable(kept_chars(stem)));
    if part.len() == 0 {
        "wallpaper"@
    } else {
        part
    }
}

/// The extension of a stored file: the source's own when it is stored as it
/// is, PNG for a converted image, MP4 for a converted video.
pub open spec fn stored_extension(adequate: bool, extension: Option<Seq<char>>, image: bool) -> Seq<
    char,
> {
    if adequate {
        match extension {
            Some(e) => e,
            None => "mp4"@,
        }
    } else if image {
        "png"@
    } else {
        "mp4"@
    }
}

/// The name under which an imported file is stored in the library:
/// `readable-xxxxxxxx.ext`, where the hexadecimal part is the low 32 bits of
/// the content key.
pub open spec fn stored_name(
    stem: Option<Seq<char>>,
    extension: Option<Seq<char>>,
    adequate: bool,
    image: bool,
    key: u64,
) -> Seq<char> {
    let source = match stem {
        Some(s) => s,
        None => "wallpaper"@,
    };
    readable_part(source) + seq!['-'] + hex_digits(key as nat, 8) + seq!['.'] + stored_extension(
        adequate,
        extension,
        image,
    )
}

/// The kept characters of `stem`, at most 48.
fn keep_readable(stem: &str) -> (out: Vec<char>)
    ensures
        out@ == at_most_readable(kept_chars(stem@)),
{
    let length = stem.unicode_len();
    let mut out: Vec<char> = Vec::new();
    let mut i: usize = 0;
    proof {
        assert(stem@.take(0) =~= Seq::<char>::empty());
        assert(at_most_readable(kept_chars(Seq::<char>::empty())) =~= Seq::<char>::empty());
    }
    while i < length && out.len() < READABLE_LIMIT
        invariant
            length == stem@.len(),
            i <= length,
            out@.len() <= READABLE_LIMIT,
            out@ == at_most_readable(kept_chars(stem@.take(i as int))),
            out@.len() < READABLE_LIMIT ==> out@ == kept_chars(stem@.take(i as int)),
        decreases length - i,
    {
        let c = stem.get_char(i);
        let keep = is_alphanumeric(c) || c == '-' || c == '_' || c == ' ';
        let ghost before = stem@.take(i as int);
        let ghost after = stem@.take(i + 1);
        proof {
            assert(after.drop_last() =~= before);
            assert(after.last() == c);
            assert(keep == kept(c));
            assert(out@ == kept_chars(before));
        }
        if keep {
            out.push(c);
        }
        i = i + 1;
        proof {
            let now = kept_chars(after);
            if keep {
                assert(now == kept_chars(before).push(c));
            } else {
                assert(now == kept_chars(before));
            }
            assert(out@ =~= now);
            assert(now.len() <= READABLE_LIMIT);
            assert(at_most_readable(now) =~= now);
        }
    }
    proof {
        if i < length {
            assert(out@.len() == READABLE_LIMIT);
            assert(kept_chars(stem@.take(i as int)).len() >= READABLE_LIMIT);
        }
        lemma_kept_take_stable(stem@, i as int, length as int);
    }
    out
}

/// Once 48 characters are kept, reading further does not change the first 48.
proof fn lemma_kept_take_stable(s: Seq<char>, i: int, n: int)
    requires
        0 <= i <= n,
        n == s.len(),
        kept_chars(s.take(i)).len() >= READABLE_LIMIT || i == n,
    ensures
        at_most_readable(kept_chars(s.take(i))) == at_most_readable(kept_chars(s)),
    decreases n - i,
{
    if i < n {
        let next = s.take(i + 1);
        assert(next.drop_last() =~= s.take(i));
        lemma_kept_grows(s.take(i), next);
        lemma_kept_take_stable(s, i + 1, n);
        let shorter = kept_chars(s.take(i));
        let longer = kept_chars(next);
        assert(at_most_readable(shorter) =~= at_most_readable(longer));
    } else {
        assert(s.take(n) =~= s);
    }
}

proof fn lemma_kept_grows(before: Seq<char>, after: Seq<char>)
    requires
        after.len() == before.len() + 1,
        after.drop_last() == before,
    ensures
        kept_chars(after).len() >= kept_chars(before).len(),
        forall|k: int| 0 <= k < kept_chars(before).len() ==> #[trigger] kept_chars(after)[k] == kept_chars(before)[k],
{
}

/// The library file name for an imported file; see `stored_name`.
pub fn stored_file_name(
    stem: Option<&str>,
    extension: Option<&str>,
    adequate: bool,
    image: bool,
    key: u64,
) -> (name: String)
    ensures
        name@ == stored_name(
            match stem {
                Some(s) => Some(s@),
                None => None,
            },
            match extension {
                Some(e) => Some(e@),
                None => None,
            },
            adequate,
            image,
            key,
        ),
{
    let source = match stem {
        Some(s) => s,
        None => "wallpaper",
    };
    let kept_part = keep_readable(source);
    let (start, end) = trim_bounds(&kept_part);
    let mut name = String::new();
    if start == end {
        let fallback = "wallpaper";
        name.append(fallback);
    } else {
        let mut k: usize = start;
        while k < end
            invariant
                start <= k <= end <= kept_part@.len(),
                name@ == kept_part@.subrange(start as int, k as int),
            decreases end - k,
        {
            push_char(&mut name, kept_part[k]);
            proof {
                assert(kept_part@.subrange(start as int, k + 1) =~= kept_part@.subrange(start as int, k as int).push(kept_part@[k as int]));
            }
            k = k + 1;
        }
    }
    proof {
        reveal_strlit("wallpaper");
        assert(name@ == readable_part(source@));
    }
    let dash = "-";
    proof {
        reveal_strlit("-");
    }
    name.append(dash);
    push_hex(&mut name, key, 8);
    let dot = ".";
    proof {
        reveal_strlit(".");
    }
    name.append(dot);
    let ext = if adequate {
        match extension {
            Some(e) => e,
            None => "mp4",
        }
    } else if image {
        "png"
    } else {
        "mp4"
    };
    name.append(ext);
    name
}

/// Whether a probed file can be stored as it is for `target`: an image no
/// larger than the monitor; a video that is also H.264 and whose frame rate
/// (`fps_fits`: at most half a frame above the target's) already fits.
pub open spec fn adequate(
    width: u32,
    height: u32,
    is_image: bool,
    is_h264: bool,
    fps_fits: bool,
    target: Target,
) -> bool {
    if is_image {
        width <= target.width && height <= target.height
    } else {
        is_h264 && width <= target.width && height <= target.height && fps_fits
    }
}

pub fn is_adequate(
    width: u32,
    height: u32,
    is_image: bool,
    is_h264: bool,
    fps_fits: bool,
    target: &Target,
) -> (fits: bool)
    ensures
        fits == adequate(width, height, is_image, is_h264, fps_fits, *target),
{
    if is_image {
        return width <= target.width && height <= target.height;
    }
    is_h264 && width <= target.width && height <= target.height && fps_fits
}

/// What an import does with a file.
#[derive(Clone, Copy, Debug, PartialEq, Eq, Structural)]
pub enum Step {
    /// The library already holds it under its name: use that copy.
    Reuse,
    /// Copy it into the library byte for byte.
    Copy,
    /// Scale the image down to the monitor and store it as PNG.
    ScaleImage,
    /// Convert the video for the monitor.
    Transcode,
}

/// The import step: reuse what is already stored; otherwise copy a file that
/// fits (or any file when optimising is off), scale down an image, or convert a video.
pub fn plan(already_stored: bool, optimize: bool, adequate_file: bool, is_image: bool) -> (step: Step)
    ensures
        step == if already_stored {
            Step::Reuse
        } else if !optimize || adequate_file {
            Step::Copy
        } else if is_image {
            Step::ScaleImage
        } else {
            Step::Transcode
        },
{
    if already_stored {
        Step::Reuse
    } else if !optimize || adequate_file {
        Step::Copy
    } else if is_image {
        Step::ScaleImage
    } else {
        Step::Transcode
    }
}

/// Which decoded frames a conversion keeps, to reach `fps` frames per second
/// from a source of any rate, and the time each kept frame gets.
pub struct FramePicker {
    interval: i64,
    next_source_time: i64,
    written: i64,
}

impl FramePicker {
    /// Hundreds of nanoseconds between two output frames.
    pub closed spec fn interval(self) -> int {
        self.interval as int
    }

    /// The source time from which the next frame is kept.
    pub closed spec fn next_source_time(self) -> int {
        self.next_source_time as int
    }

    /// Frames kept so far.
    pub closed spec fn written(self) -> int {
        self.written as int
    }

    pub fn new(fps: u32) -> (picker: Self)
        requires
            fps > 0,
        ensures
            picker.interval() == 10_000_000int / (fps as int),
            picker.next_source_time() == 0,
            picker.written() == 0,
    {
        FramePicker { interval: 10_000_000i64 / fps as i64, next_source_time: 0, written: 0 }
    }

    /// A decoded frame at source time `timestamp`: skipped while it comes
    /// before the next output slot (allowing one unit of rounding), otherwise
    /// kept and stamped with the next output time and the frame interval.
    pub fn offer(&mut self, timestamp: i64) -> (stamp: Option<(i64, i64)>)
        requires
            timestamp < i64::MAX,
            old(self).next_source_time() + old(self).interval() <= i64::MAX,
            0 <= old(self).written() < i64::MAX,
            0 <= old(self).interval(),
            old(self).written() * old(self).interval() <= i64::MAX,
        ensures
            final(self).interval() == old(self).interval(),
            timestamp + 1 < old(self).next_source_time() ==> stamp is None && final(self).next_source_time()
                == old(self).next_source_time() && final(self).written() == old(self).written(),
            timestamp + 1 >= old(self).next_source_time() ==> {
                &&& stamp == Some(((old(self).written() * old(self).interval()) as i64, old(self).interval() as i64))
                &&& final(self).next_source_time() == old(self).next_source_time() + old(self).interval()
                &&& final(self).written() == old(self).written() + 1
            },
    {
        if timestamp + 1 < self.next_source_time {
            return None;
        }
        self.next_source_time = self.next_source_time + self.interval;
        let time = self.written * self.interval;
        self.written = self.written + 1;
        Some((time, self.interval))
    }

    /// Whether any frame was kept: a conversion that kept none fails.
    pub fn any_written(&self) -> (some: bool)
        ensures
            some == (self.written() > 0),
    {
        self.written > 0
    }
}

/// A file is stored as it is only if it is no larger than the monitor in
/// either direction, and a video only if it is also H.264 at a frame rate
/// that fits. Whatever fits stays fitting when it is smaller, and an image
/// within the monitor, or an H.264 video within it at a fitting rate, always fits.
pub proof fn adequate_files_fit_the_monitor(
    width: u32,
    height: u32,
    smaller_width: u32,
    smaller_height: u32,
    is_image: bool,
    is_h264: bool,
    fps_fits: bool,
    target: Target,
)
    ensures
        adequate(width, height, is_image, is_h264, fps_fits, target) ==> width <= target.width && height
            <= target.height,
        adequate(width, height, false, is_h264, fps_fits, target) ==> is_h264 && fps_fits,
        width > target.width || height > target.height ==> !adequate(width, height, is_image, is_h264, fps_fits, target),
        adequate(width, height, is_image, is_h264, fps_fits, target) && smaller_width <= width
            && smaller_height <= height ==> adequate(smaller_width, smaller_height, is_image, is_h264, fps_fits, target),
        width <= target.width && height <= target.height ==> adequate(width, height, true, is_h264, fps_fits, target),
        width <= target.width && height <= target.height && is_h264 && fps_fits ==> adequate(
            width,
            height,
            is_image,
            is_h264,
            fps_fits,
            target,
        ),
{
}

} // verus!
