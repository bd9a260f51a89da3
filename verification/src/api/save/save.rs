//! Storing a save sent by the game.

use vstd::prelude::*;
use crate::api::Reply;
use crate::text::{concat_str, decimal, decimal_string};

verus! {

/// A save sent by the game.
pub struct Save {
    /// The save slot; `0` is the autosave slot.
    pub slot: u32,
    /// The name the player gave the character.
    pub name: String,
    /// The save itself.
    pub save: String,
    /// The game's name.
    pub story: String,
    /// Whether the game stored the save in IndexedDB (`true`) or in the
    /// browser's local storage (`false`); this only changes the file's name.
    pub new: bool,
}

/// The name of a save's file: `{new|old}-{name}-{slot}.save`, the slot
/// written in decimal.
pub open spec fn save_file_name_spec(name: Seq<char>, slot: nat, new: bool) -> Seq<char> {
    (if new { "new"@ } else { "old"@ }) + seq!['-'] + name + seq!['-'] + decimal(slot) + ".save"@
}

/// The name of the file a save is stored in (see [`save_file_name_spec`]).
pub fn save_file_name(name: &str, slot: u32, new: bool) -> (res: String)
    ensures
        res@ == save_file_name_spec(name@, slot as nat, new),
{
    let kind = if new { "new" } else { "old" };
    let a = concat_str(kind, "-");
    let b = concat_str(a.as_str(), name);
    let c = concat_str(b.as_str(), "-");
    let slot_text = decimal_string(slot as u64);
    let d = concat_str(c.as_str(), slot_text.as_str());
    let res = concat_str(d.as_str(), ".save");
    proof {
        reveal_strlit("-");
        reveal_strlit("new");
        reveal_strlit("old");
    }
    res
}

/// One standard base64 digit.
pub open spec fn base64_digit(v: int) -> char {
    if v < 26 {
        (65 + v) as char
    } else if v < 52 {
        (97 + v - 26) as char
    } else if v < 62 {
        (48 + v - 52) as char
    } else if v == 62 {
        '+'
    } else {
        '/'
    }
}

/// Standard base64 (RFC 4648, with the alphabet `A-Z a-z 0-9 + /` and `=`
/// padding): every three bytes become four digits; a last group of one or two
/// bytes becomes two or three digits and is padded to four.
pub open spec fn base64_standard(b: Seq<u8>) -> Seq<char>
    decreases b.len(),
{
    if b.len() == 0 {
        Seq::<char>::empty()
    } else if b.len() == 1 {
        base64_group(b[0] as int, 0, 0, 1)
    } else if b.len() == 2 {
        base64_group(b[0] as int, b[1] as int, 0, 2)
    } else {
        base64_group(b[0] as int, b[1] as int, b[2] as int, 3) + base64_standard(b.skip(3))
    }
}

/// The four characters that a group of `n` bytes (`n` being 1, 2 or 3;
/// missing bytes given as 0) becomes.
pub open spec fn base64_group(b0: int, b1: int, b2: int, n: int) -> Seq<char> {
    seq![
        base64_digit(b0 / 4),
        base64_digit((b0 % 4) * 16 + b1 / 16),
        if n >= 2 { base64_digit((b1 % 16) * 4 + b2 / 64) } else { '=' },
        if n >= 3 { base64_digit(b2 % 64) } else { '=' },
    ]
}

/// Encodes bytes with `base64::prelude::BASE64_STANDARD`; the result is
/// standard padded base64 (see [`base64_standard`]).
#[verifier::external_body]
fn base64_encode(bytes: &Vec<u8>) -> (res: String)
    ensures
        res@ == base64_standard(bytes@),
{
    base64::Engine::encode(&base64::prelude::BASE64_STANDARD, bytes)
}

/// What `lz_str::compress_to_uint8_array` makes of a string: its LZ-String
/// compression, each 16-bit unit written as two big-endian bytes.
pub uninterp spec fn lz_compressed(s: Seq<char>) -> Seq<u8>;

/// Compresses a string with `lz_str::compress_to_uint8_array`; the result is
/// named [`lz_compressed`], and has an even length (two bytes per unit).
#[verifier::external_body]
fn lz_compress(s: &str) -> (res: Vec<u8>)
    ensures
        res@ == lz_compressed(s@),
        res@.len() % 2 == 0,
{
    lz_str::compress_to_uint8_array(s)
}

/// The metadata appended to a save: `{ "<story>": <length> }`, where the
/// length is that of the encoded save.
pub open spec fn save_metadata(story: Seq<char>, len: nat) -> Seq<char> {
    "{ \""@ + story + "\": "@ + decimal(len) + " }"@
}

/// The content of a save's file: the save compressed and base64-encoded,
/// followed by the metadata, compressed and encoded the same way.
pub open spec fn save_file_content(save: Seq<char>, story: Seq<char>) -> Seq<char> {
    let data = base64_standard(lz_compressed(save));
    data + base64_standard(lz_compressed(save_metadata(story, data.len())))
}

/// A save's file holds the encoded save followed by the encoded metadata,
/// and the metadata gives the story and the exact number of characters of
/// the encoded save, however long it is.
pub proof fn file_content_carries_data_length(save: Seq<char>, story: Seq<char>)
    ensures
        save_file_content(save, story) == base64_standard(lz_compressed(save)) + base64_standard(
            lz_compressed(
                "{ \""@ + story + "\": "@ + decimal(base64_standard(lz_compressed(save)).len()) + " }"@,
            ),
        ),
{
}

/// Every base64 digit is an ASCII character.
pub proof fn base64_is_ascii(b: Seq<u8>)
    ensures
        forall|i: int| 0 <= i < base64_standard(b).len() ==> (#[trigger] base64_standard(b)[i]) as int <= 127,
    decreases b.len(),
{
    if b.len() >= 3 {
        base64_is_ascii(b.skip(3));
        assert forall|i: int| 0 <= i < base64_standard(b).len() implies (#[trigger] base64_standard(b)[i]) as int <= 127 by {
            if i >= 4 {
                assert(base64_standard(b)[i] == base64_standard(b.skip(3))[i - 4]);
            }
        }
    }
}

/// Builds the content of a save's file (see [`save_file_content`]). The
/// encoded save is ASCII, so the length written in the metadata is its
/// length in bytes as well as in characters.
pub fn encode_save(save: &str, story: &str) -> (res: String)
    ensures
        res@ == save_file_content(save@, story@),
{
    let data = base64_encode(&lz_compress(save));
    let len = data.as_str().unicode_len();
    let m1 = concat_str("{ \"", story);
    let m2 = concat_str(m1.as_str(), "\": ");
    let len_text = decimal_string(len as u64);
    let m3 = concat_str(m2.as_str(), len_text.as_str());
    let metadata = concat_str(m3.as_str(), " }");
    let tail = base64_encode(&lz_compress(metadata.as_str()));
    let res = concat_str(data.as_str(), tail.as_str());
    proof {
        assert(metadata@ == save_metadata(story@, data@.len()));
    }
    res
}

/// How storing a save went.
pub enum SaveOutcome {
    /// The save directory could not be created.
    DirFailed,
    /// The file could not be written.
    WriteFailed,
    /// The save was stored.
    Saved,
}

/// The answer to storing a save.
pub fn save_reply(outcome: SaveOutcome) -> (r: Reply)
    ensures
        outcome is DirFailed ==> r.status == 500 && r.message@ == "创建存档目录失败"@,
        outcome is WriteFailed ==> r.status == 500 && r.message@ == "存档文件保存失败"@,
        outcome is Saved ==> r.status == 200 && r.message@ == "存档保存成功"@,
{
    match outcome {
        SaveOutcome::DirFailed => Reply { status: 500, message: "创建存档目录失败".to_string() },
        SaveOutcome::WriteFailed => Reply { status: 500, message: "存档文件保存失败".to_string() },
        SaveOutcome::Saved => Reply { status: 200, message: "存档保存成功".to_string() },
    }
}

} // verus!
