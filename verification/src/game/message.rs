//! The lines that the game writes into its message panel.

use bstring::BString;
use vstd::prelude::*;

verus! {

/// The byte that opens every line of the message panel.
pub const BULLET: u8 = 0x95;

/// The byte string type of the game's texts. Nothing of its inside is known
/// here; what it holds is spoken of through [`bstring_bytes`].
#[verifier::external_type_specification]
#[verifier::external_body]
pub struct ExBString(BString);

/// The bytes that a byte string holds, in order.
pub uninterp spec fn bstring_bytes(s: BString) -> Seq<u8>;

/// `BString::new`: a byte string that holds nothing.
#[verifier::external_body]
fn bstring_new() -> (s: BString)
    ensures
        bstring_bytes(s) == Seq::<u8>::empty(),
{
    BString::new()
}

/// `BString::push`: the byte is appended, the bytes before it stay.
#[verifier::external_body]
fn bstring_push(s: &mut BString, b: u8)
    ensures
        bstring_bytes(*final(s)) == bstring_bytes(*old(s)).push(b),
{
    s.push(b)
}

/// `BString::push_str` with a slice of bytes: the slice is appended as it
/// is, the bytes before it stay.
#[verifier::external_body]
fn bstring_push_str(s: &mut BString, bytes: &[u8])
    ensures
        bstring_bytes(*final(s)) == bstring_bytes(*old(s)) + bytes@,
{
    s.push_str(bytes)
}

/// The words that introduce what the player sees: `"You see: "`.
pub open spec fn you_see() -> Seq<u8> {
    seq![0x59u8, 0x6f, 0x75, 0x20, 0x73, 0x65, 0x65, 0x3a, 0x20]
}

/// The line that tells the player what the pointer rests on: the bullet,
/// `"You see: "`, and the object's name.
pub open spec fn look_message_spec(name: Seq<u8>) -> Seq<u8> {
    seq![BULLET] + you_see() + name
}

/// Writes the line that tells the player what the pointer rests on.
pub fn look_message(name: &[u8]) -> (m: BString)
    ensures
        bstring_bytes(m) == look_message_spec(name@),
{
    let words: [u8; 9] = [0x59, 0x6f, 0x75, 0x20, 0x73, 0x65, 0x65, 0x3a, 0x20];
    let mut m = bstring_new();
    bstring_push(&mut m, BULLET);
    bstring_push_str(&mut m, words.as_slice());
    bstring_push_str(&mut m, name);
    proof {
        assert(words@ =~= you_see());
        assert(Seq::<u8>::empty().push(BULLET) =~= seq![BULLET]);
    }
    m
}

} // verus!
