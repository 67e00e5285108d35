use vstd::prelude::*;
use vstd::string::StringExecFns;

use crate::text::{opt_chars, text_eq};

verus! {

// ---------------------------------------------------------------------------
// WAV framing of 16-bit PCM
// ---------------------------------------------------------------------------

/// `x` as two little-endian bytes.
pub open spec fn le16(x: int) -> Seq<u8> {
    seq![(x % 256) as u8, ((x / 256) % 256) as u8]
}

/// `x` as four little-endian bytes.
pub open spec fn le32(x: int) -> Seq<u8> {
    seq![
        (x % 256) as u8,
        ((x / 256) % 256) as u8,
        ((x / 65536) % 256) as u8,
        ((x / 16777216) % 256) as u8,
    ]
}

/// The little-endian 16-bit number at `at` in `b`.
pub open spec fn read_le16(b: Seq<u8>, at: int) -> int {
    b[at] + 256 * b[at + 1]
}

/// The little-endian 32-bit number at `at` in `b`.
pub open spec fn read_le32(b: Seq<u8>, at: int) -> int {
    b[at] + 256 * b[at + 1] + 65536 * b[at + 2] + 16777216 * b[at + 3]
}

/// The ASCII bytes of a four-letter chunk tag.
pub open spec fn tag(a: char, b: char, c: char, d: char) -> Seq<u8> {
    seq![a as u8, b as u8, c as u8, d as u8]
}

/// The 44-byte RIFF/WAVE header for `data_len` bytes of 16-bit PCM with the
/// given sample rate and channel count.
pub open spec fn wav_header(data_len: u32, sample_rate: u32, channels: u16) -> Seq<u8> {
    tag('R', 'I', 'F', 'F') + le32(36 + data_len) + tag('W', 'A', 'V', 'E') + tag('f', 'm', 't', ' ')
        + le32(16) + le16(1) + le16(channels as int) + le32(sample_rate as int) + le32(
        sample_rate * channels * 2,
    ) + le16(channels * 2) + le16(16) + tag('d', 'a', 't', 'a') + le32(data_len as int)
}

fn push_tag(v: &mut Vec<u8>, a: u8, b: u8, c: u8, d: u8)
    ensures
        final(v)@ == old(v)@ + seq![a, b, c, d],
{
    v.push(a);
    v.push(b);
    v.push(c);
    v.push(d);
    assert(final(v)@ =~= old(v)@ + seq![a, b, c, d]);
}

fn push_le16(v: &mut Vec<u8>, x: u16)
    ensures
        final(v)@ == old(v)@ + le16(x as int),
{
    v.push((x % 256) as u8);
    v.push(((x / 256) % 256) as u8);
    assert(final(v)@ =~= old(v)@ + le16(x as int));
}

fn push_le32(v: &mut Vec<u8>, x: u32)
    ensures
        final(v)@ == old(v)@ + le32(x as int),
{
    v.push((x % 256) as u8);
    v.push(((x / 256) % 256) as u8);
    v.push(((x / 65536) % 256) as u8);
    v.push(((x / 16777216) % 256) as u8);
    assert(final(v)@ =~= old(v)@ + le32(x as int));
}

/// Frames 16-bit PCM as a WAV file: the standard RIFF/WAVE header, then the
/// PCM bytes. The data length field holds the byte count as a `u32`.
pub fn pcm_to_wav(pcm_data: &[u8], sample_rate: u32, channels: u16) -> (wav: Vec<u8>)
    requires
        (pcm_data@.len() as u32) + 36 <= u32::MAX,
        sample_rate * channels * 2 <= u32::MAX,
        channels * 2 <= u16::MAX,
    ensures
        wav@ == wav_header(pcm_data@.len() as u32, sample_rate, channels) + pcm_data@,
{
    let data_len = pcm_data.len() as u32;
    let byte_rate = sample_rate * channels as u32 * 2;
    let block_align = channels * 2;
    let total_len = 36 + data_len;

    let mut wav: Vec<u8> = Vec::new();
    push_tag(&mut wav, 82, 73, 70, 70);
    push_le32(&mut wav, total_len);
    push_tag(&mut wav, 87, 65, 86, 69);
    push_tag(&mut wav, 102, 109, 116, 32);
    push_le32(&mut wav, 16);
    push_le16(&mut wav, 1);
    push_le16(&mut wav, channels);
    push_le32(&mut wav, sample_rate);
    push_le32(&mut wav, byte_rate);
    push_le16(&mut wav, block_align);
    push_le16(&mut wav, 16);
    push_tag(&mut wav, 100, 97, 116, 97);
    push_le32(&mut wav, data_len);
    let ghost header = wav@;
    assert(header =~= wav_header(data_len, sample_rate, channels));
    let mut i: usize = 0;
    while i < pcm_data.len()
        invariant
            i <= pcm_data@.len(),
            wav@ == header + pcm_data@.take(i as int),
        decreases pcm_data@.len() - i,
    {
        wav.push(pcm_data[i]);
        assert(pcm_data@.take(i + 1) =~= pcm_data@.take(i as int).push(pcm_data@[i as int]));
        i = i + 1;
    }
    assert(pcm_data@.take(i as int) =~= pcm_data@);
    wav
}

proof fn lemma_le16_read(x: int)
    requires
        0 <= x < 65536,
    ensures
        read_le16(le16(x), 0) == x,
{
}

proof fn lemma_le32_read(x: int)
    requires
        0 <= x < 0x1_0000_0000,
    ensures
        read_le32(le32(x), 0) == x,
{
}

/// Reading the header back gives what went in: the PCM format code 1, the
/// channel count, the sample rate, 16 bits per sample, the byte rate and
/// block alignment of 16-bit samples, the data length in both size fields,
/// and the PCM bytes unchanged after the 44-byte header.
pub proof fn lemma_wav_fields(pcm: Seq<u8>, sample_rate: u32, channels: u16)
    requires
        (pcm.len() as u32) + 36 <= u32::MAX,
        sample_rate * channels * 2 <= u32::MAX,
        channels * 2 <= u16::MAX,
    ensures
        ({
            let dl = pcm.len() as u32;
            let w = wav_header(dl, sample_rate, channels) + pcm;
            &&& w.len() == 44 + pcm.len()
            &&& w.subrange(0, 4) == tag('R', 'I', 'F', 'F')
            &&& read_le32(w, 4) == 36 + dl
            &&& w.subrange(8, 12) == tag('W', 'A', 'V', 'E')
            &&& w.subrange(12, 16) == tag('f', 'm', 't', ' ')
            &&& read_le32(w, 16) == 16
            &&& read_le16(w, 20) == 1
            &&& read_le16(w, 22) == channels
            &&& read_le32(w, 24) == sample_rate
            &&& read_le32(w, 28) == sample_rate * channels * 2
            &&& read_le16(w, 32) == channels * 2
            &&& read_le16(w, 34) == 16
            &&& w.subrange(36, 40) == tag('d', 'a', 't', 'a')
            &&& read_le32(w, 40) == dl
            &&& w.subrange(44, w.len() as int) == pcm
        }),
{
    let dl = pcm.len() as u32;
    let h = wav_header(dl, sample_rate, channels);
    let w = h + pcm;
    lemma_le32_read(36 + dl);
    lemma_le32_read(16);
    lemma_le16_read(1);
    lemma_le16_read(channels as int);
    lemma_le32_read(sample_rate as int);
    lemma_le32_read(sample_rate * channels * 2);
    lemma_le16_read(channels * 2);
    lemma_le16_read(16);
    lemma_le32_read(dl as int);
    assert(h.len() == 44);
    assert(w.subrange(0, 4) =~= tag('R', 'I', 'F', 'F'));
    assert(w.subrange(8, 12) =~= tag('W', 'A', 'V', 'E'));
    assert(w.subrange(12, 16) =~= tag('f', 'm', 't', ' '));
    assert(w.subrange(36, 40) =~= tag('d', 'a', 't', 'a'));
    assert(w.subrange(44, w.len() as int) =~= pcm);
}

// ---------------------------------------------------------------------------
// Captured samples
// ---------------------------------------------------------------------------

/// `x` as two big-endian bytes.
pub open spec fn be16(x: int) -> Seq<u8> {
    seq![((x / 256) % 256) as u8, (x % 256) as u8]
}

/// The bytes of a sample in the machine's byte order.
///
/// Trusted: calls `i16::to_ne_bytes`; the order depends on the machine, so
/// only that the bytes are the sample's two's-complement bits in one of the
/// two orders is stated.
#[verifier::external_body]
fn sample_bytes(sample: i16) -> (r: [u8; 2])
    ensures
        r@ == le16((sample as u16) as int) || r@ == be16((sample as u16) as int),
{
    sample.to_ne_bytes()
}

/// Whether `bytes` hold the samples, two bytes each in one of the two byte
/// orders.
pub open spec fn holds_samples(bytes: Seq<u8>, samples: Seq<i16>) -> bool {
    &&& bytes.len() == 2 * samples.len()
    &&& forall|i: int|
        0 <= i < samples.len() ==> #[trigger] bytes.subrange(2 * i, 2 * i + 2) == le16(
            (samples[i] as u16) as int,
        ) || bytes.subrange(2 * i, 2 * i + 2) == be16((samples[i] as u16) as int)
}

/// Appends captured samples to the recording buffer, two bytes each in the
/// machine's byte order; what was in the buffer stays.
pub fn append_samples(buffer: &mut Vec<u8>, data: &[i16])
    ensures
        final(buffer)@.take(old(buffer)@.len() as int) == old(buffer)@,
        holds_samples(final(buffer)@.skip(old(buffer)@.len() as int), data@),
{
    let ghost start = buffer@;
    let mut i: usize = 0;
    while i < data.len()
        invariant
            i <= data@.len(),
            buffer@.len() == start.len() + 2 * i,
            buffer@.take(start.len() as int) == start,
            holds_samples(buffer@.skip(start.len() as int), data@.take(i as int)),
        decreases data@.len() - i,
    {
        let b = sample_bytes(data[i]);
        let ghost before = buffer@;
        buffer.push(b[0]);
        buffer.push(b[1]);
        proof {
            let tail = buffer@.skip(start.len() as int);
            let prev = before.skip(start.len() as int);
            assert(tail =~= prev + seq![b@[0], b@[1]]);
            assert(b@ =~= seq![b@[0], b@[1]]);
            assert(buffer@.take(start.len() as int) =~= start);
            assert forall|k: int| 0 <= k < i + 1 implies #[trigger] tail.subrange(2 * k, 2 * k + 2)
                == le16((data@.take(i + 1)[k] as u16) as int) || tail.subrange(2 * k, 2 * k + 2)
                == be16((data@.take(i + 1)[k] as u16) as int) by {
                if k < i {
                    assert(tail.subrange(2 * k, 2 * k + 2) =~= prev.subrange(2 * k, 2 * k + 2));
                    assert(data@.take(i + 1)[k] == data@.take(i as int)[k]);
                } else {
                    assert(tail.subrange(2 * k, 2 * k + 2) =~= b@);
                }
            }
        }
        i = i + 1;
    }
    assert(data@.take(i as int) =~= data@);
}

// ---------------------------------------------------------------------------
// Input devices
// ---------------------------------------------------------------------------

/// An audio input device as the listing shows it.
#[derive(Debug, Clone, PartialEq, Eq)]
pub struct InputDeviceInfo {
    pub id: Option<String>,
    pub name: String,
    pub is_default: bool,
}

/// The listing entry of a device: its name is its description's name, else
/// its id, else "未知设备"; it is the default device when it has an id and
/// that id is the default device's id.
pub open spec fn device_info_spec(
    id: Option<Seq<char>>,
    description_name: Option<Seq<char>>,
    default_id: Option<Seq<char>>,
) -> (Option<Seq<char>>, Seq<char>, bool) {
    (
        id,
        match description_name {
            Some(n) => n,
            None => match id {
                Some(i) => i,
                None => "未知设备"@,
            },
        },
        id is Some && id == default_id,
    )
}

fn opt_text_eq(a: &Option<String>, b: &Option<String>) -> (r: bool)
    ensures
        r == (opt_chars(*a) == opt_chars(*b)),
{
    match (a, b) {
        (Some(x), Some(y)) => text_eq(x.as_str(), y.as_str()),
        (None, None) => true,
        _ => false,
    }
}

impl InputDeviceInfo {
    /// The listing entry of a device, from what the audio host reports:
    /// its id, the name in its description, and the default device's id.
    pub fn from_parts(id: Option<String>, description_name: Option<String>, default_id: &Option<String>) -> (info: InputDeviceInfo)
        ensures
            (opt_chars(info.id), info.name@, info.is_default) == device_info_spec(
                opt_chars(id),
                opt_chars(description_name),
                opt_chars(*default_id),
            ),
    {
        let is_default = id.is_some() && opt_text_eq(&id, default_id);
        let name = match description_name {
            Some(n) => n,
            None => match &id {
                Some(i) => i.clone(),
                None => String::from_str("未知设备"),
            },
        };
        InputDeviceInfo { id, name, is_default }
    }
}

/// Whether the device's id is `selector`.
pub open spec fn id_matches(d: InputDeviceInfo, selector: Seq<char>) -> bool {
    d.id matches Some(i) && i@ == selector
}

/// Whether the device's name is `selector`.
pub open spec fn name_matches(d: InputDeviceInfo, selector: Seq<char>) -> bool {
    d.name@ == selector
}

/// How many of the devices are named `selector`.
pub open spec fn name_match_count(devices: Seq<InputDeviceInfo>, selector: Seq<char>) -> nat
    decreases devices.len(),
{
    if devices.len() == 0 {
        0
    } else {
        name_match_count(devices.drop_last(), selector) + if name_matches(devices.last(), selector) {
            1nat
        } else {
            0nat
        }
    }
}

proof fn lemma_count_positive(devices: Seq<InputDeviceInfo>, selector: Seq<char>, i: int)
    requires
        0 <= i < devices.len(),
        name_matches(devices[i], selector),
    ensures
        name_match_count(devices, selector) >= 1,
    decreases devices.len(),
{
    if i < devices.len() - 1 {
        assert(devices.drop_last()[i] == devices[i]);
        lemma_count_positive(devices.drop_last(), selector, i);
    }
}

/// A selector that names exactly one device names it at one index only, so
/// the device that `matching_device_index` picks by name is determined.
pub proof fn lemma_unique_name_match(devices: Seq<InputDeviceInfo>, selector: Seq<char>, i: int, j: int)
    requires
        name_match_count(devices, selector) == 1,
        0 <= i < devices.len(),
        0 <= j < devices.len(),
        name_matches(devices[i], selector),
        name_matches(devices[j], selector),
    ensures
        i == j,
    decreases devices.len(),
{
    let last = devices.len() - 1;
    let rest = devices.drop_last();
    if i != j {
        if i < last && j < last {
            assert(rest[i] == devices[i]);
            assert(rest[j] == devices[j]);
            if name_matches(devices[last], selector) {
                lemma_count_positive(rest, selector, i);
            } else {
                lemma_unique_name_match(rest, selector, i, j);
            }
        } else if i == last {
            assert(rest[j] == devices[j]);
            lemma_count_positive(rest, selector, j);
        } else {
            assert(rest[i] == devices[i]);
            lemma_count_positive(rest, selector, i);
        }
    }
}

/// The error for a selector that matches no device.
pub open spec fn not_found_text(selector: Seq<char>) -> Seq<char> {
    "找不到指定的音频输入设备: "@ + selector
}

/// The error for a selector that names several devices.
pub open spec fn ambiguous_text(selector: Seq<char>) -> Seq<char> {
    "存在多个名为 '"@ + selector + "' 的输入设备，请改用设备 ID"@
}

/// Whether no device has `selector` as its id.
pub open spec fn no_id_match(devices: Seq<InputDeviceInfo>, selector: Seq<char>) -> bool {
    forall|j: int| 0 <= j < devices.len() ==> !id_matches(#[trigger] devices[j], selector)
}

/// Picks the device that `selector` names: the first whose id it is;
/// failing that, the one device whose name it is. A selector that matches
/// nothing, or names several devices, is refused with a message that says
/// which.
pub fn matching_device_index(selector: &str, devices: &[InputDeviceInfo]) -> (r: Result<usize, String>)
    ensures
        match r {
            Ok(i) => i < devices@.len() && ((id_matches(devices@[i as int], selector@) && forall|j: int|
                0 <= j < i ==> !id_matches(#[trigger] devices@[j], selector@)) || (no_id_match(
                devices@,
                selector@,
            ) && name_match_count(devices@, selector@) == 1 && name_matches(
                devices@[i as int],
                selector@,
            ))),
            Err(msg) => no_id_match(devices@, selector@) && name_match_count(devices@, selector@)
                != 1 && msg@ == if name_match_count(devices@, selector@) == 0 {
                not_found_text(selector@)
            } else {
                ambiguous_text(selector@)
            },
        },
{
    let n = devices.len();
    let mut i: usize = 0;
    while i < n
        invariant
            n == devices@.len(),
            i <= n,
            forall|j: int| 0 <= j < i ==> !id_matches(#[trigger] devices@[j], selector@),
        decreases n - i,
    {
        match &devices[i].id {
            Some(id) => {
                if text_eq(id.as_str(), selector) {
                    return Ok(i);
                }
            },
            None => {},
        }
        i = i + 1;
    }
    let mut count: usize = 0;
    let mut found: usize = 0;
    let mut k: usize = 0;
    while k < n
        invariant
            n == devices@.len(),
            k <= n,
            count == name_match_count(devices@.take(k as int), selector@),
            count <= k,
            count >= 1 ==> found < n && name_matches(devices@[found as int], selector@),
        decreases n - k,
    {
        assert(devices@.take(k + 1).drop_last() =~= devices@.take(k as int));
        assert(devices@.take(k + 1).last() == devices@[k as int]);
        if text_eq(devices[k].name.as_str(), selector) {
            count = count + 1;
            found = k;
        }
        k = k + 1;
    }
    assert(devices@.take(n as int) =~= devices@);
    if count == 1 {
        Ok(found)
    } else if count == 0 {
        let mut msg = String::from_str("找不到指定的音频输入设备: ");
        msg.append(selector);
        Err(msg)
    } else {
        let mut msg = String::from_str("存在多个名为 '");
        msg.append(selector);
        msg.append("' 的输入设备，请改用设备 ID");
        Err(msg)
    }
}

/// How a device appears in the list of available devices.
pub open spec fn available_label(d: InputDeviceInfo) -> Seq<char> {
    match d.id {
        Some(id) => d.name@ + " (ID: "@ + id@ + ")"@,
        None => d.name@,
    }
}

/// The labels of `devices` joined by ", ".
pub open spec fn joined_labels(devices: Seq<InputDeviceInfo>) -> Seq<char>
    decreases devices.len(),
{
    if devices.len() == 0 {
        Seq::empty()
    } else if devices.len() == 1 {
        available_label(devices[0])
    } else {
        joined_labels(devices.drop_last()) + ", "@ + available_label(devices.last())
    }
}

/// The message for a selector that picks no device: the reason, then the
/// devices there are, or "无" when there are none.
pub open spec fn selection_error_text(reason: Seq<char>, devices: Seq<InputDeviceInfo>) -> Seq<char> {
    reason + "。可用设备: "@ + if devices.len() == 0 {
        "无"@
    } else {
        joined_labels(devices)
    }
}

fn label_of(d: &InputDeviceInfo) -> (r: String)
    ensures
        r@ == available_label(*d),
{
    match &d.id {
        Some(id) => {
            let mut r = d.name.clone();
            r.append(" (ID: ");
            r.append(id.as_str());
            r.append(")");
            r
        },
        None => d.name.clone(),
    }
}

/// The message given when `reason` stopped a device selection, listing the
/// available devices.
pub fn selection_error_message(reason: &str, devices: &[InputDeviceInfo]) -> (r: String)
    ensures
        r@ == selection_error_text(reason@, devices@),
{
    let mut r = String::from_str(reason);
    r.append("。可用设备: ");
    if devices.len() == 0 {
        r.append("无");
        return r;
    }
    let ghost base = r@;
    let mut i: usize = 0;
    while i < devices.len()
        invariant
            i <= devices@.len(),
            r@ == base + joined_labels(devices@.take(i as int)),
        decreases devices@.len() - i,
    {
        assert(devices@.take(i + 1).drop_last() =~= devices@.take(i as int));
        assert(devices@.take(i + 1).last() == devices@[i as int]);
        if i > 0 {
            r.append(", ");
        } else {
            assert(joined_labels(devices@.take(0)) =~= Seq::<char>::empty());
        }
        r.append(label_of(&devices[i]).as_str());
        proof {
            if i == 0 {
                assert(devices@.take(1)[0] == devices@[0]);
            }
        }
        assert(r@ =~= base + joined_labels(devices@.take(i + 1)));
        i = i + 1;
    }
    assert(devices@.take(devices@.len() as int) =~= devices@);
    r
}

} // verus!
