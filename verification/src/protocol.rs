//! The MCP-facing shapes this library produces: tool definitions with their
//! input schemas, replies, and the PNG image content block.

use vstd::prelude::*;

verus! {

/// One property of a tool's input schema.
#[derive(Debug)]
pub struct SchemaProperty {
    pub name: String,
    /// The JSON type: `string`, `boolean` or `number`.
    pub value_type: String,
    pub description: String,
    /// The values the property may take; empty when any value of its type is
    /// accepted.
    pub allowed: Vec<String>,
}

/// A tool as advertised to MCP clients: its name, its model-facing
/// description, and its input schema (an object with these properties, of
/// which `required` must be present).
#[derive(Debug)]
pub struct ToolDef {
    pub name: String,
    pub description: String,
    pub properties: Vec<SchemaProperty>,
    pub required: Vec<String>,
}

/// A schema property.
pub fn property(name: &str, value_type: &str, description: &str) -> (p: SchemaProperty)
    ensures
        p.name@ == name@,
        p.value_type@ == value_type@,
        p.description@ == description@,
        p.allowed@.len() == 0,
{
    SchemaProperty {
        name: String::from_str(name),
        value_type: String::from_str(value_type),
        description: String::from_str(description),
        allowed: Vec::new(),
    }
}

/// The character of the RFC 4648 base64 alphabet that stands for the six-bit
/// value `v` (`A`-`Z`, `a`-`z`, `0`-`9`, `+`, `/`).
pub open spec fn base64_digit(v: int) -> char {
    if v < 26 {
        (65 + v) as char
    } else if v < 52 {
        (97 + (v - 26)) as char
    } else if v < 62 {
        (48 + (v - 52)) as char
    } else if v == 62 {
        '+'
    } else {
        '/'
    }
}

/// Standard base64 (RFC 4648 alphabet, with `=` padding): each group of three
/// bytes becomes four characters, and a final group of one or two bytes is
/// padded to four characters.
pub open spec fn base64_standard(bytes: Seq<u8>) -> Seq<char>
    decreases bytes.len(),
{
    if bytes.len() == 0 {
        Seq::empty()
    } else if bytes.len() == 1 {
        let a = bytes[0] as int;
        seq![base64_digit(a / 4), base64_digit((a % 4) * 16), '=', '=']
    } else if bytes.len() == 2 {
        let a = bytes[0] as int;
        let b = bytes[1] as int;
        seq![base64_digit(a / 4), base64_digit((a % 4) * 16 + b / 16), base64_digit((b % 16) * 4), '=']
    } else {
        let a = bytes[0] as int;
        let b = bytes[1] as int;
        let c = bytes[2] as int;
        seq![
            base64_digit(a / 4),
            base64_digit((a % 4) * 16 + b / 16),
            base64_digit((b % 16) * 4 + c / 64),
            base64_digit(c % 64),
        ] + base64_standard(bytes.subrange(3, bytes.len() as int))
    }
}

/// The six-bit value a base64 alphabet character stands for (0 for any other
/// character).
pub open spec fn base64_value(c: char) -> int {
    if 'A' <= c && c <= 'Z' {
        c as int - 65
    } else if 'a' <= c && c <= 'z' {
        c as int - 97 + 26
    } else if '0' <= c && c <= '9' {
        c as int - 48 + 52
    } else if c == '+' {
        62
    } else if c == '/' {
        63
    } else {
        0
    }
}

/// The bytes that one group of four base64 characters stands for: three, or
/// fewer where the group ends in `=` padding.
pub open spec fn base64_group_bytes(q: Seq<char>) -> Seq<u8> {
    let v0 = base64_value(q[0]);
    let v1 = base64_value(q[1]);
    let v2 = base64_value(q[2]);
    let v3 = base64_value(q[3]);
    if q[2] == '=' {
        seq![(v0 * 4 + v1 / 16) as u8]
    } else if q[3] == '=' {
        seq![(v0 * 4 + v1 / 16) as u8, ((v1 % 16) * 16 + v2 / 4) as u8]
    } else {
        seq![(v0 * 4 + v1 / 16) as u8, ((v1 % 16) * 16 + v2 / 4) as u8, ((v2 % 4) * 64 + v3) as u8]
    }
}

/// Standard base64 decoding, group of four characters by group of four.
pub open spec fn base64_decode(text: Seq<char>) -> Seq<u8>
    decreases text.len(),
{
    if text.len() < 4 {
        Seq::empty()
    } else {
        base64_group_bytes(text.subrange(0, 4)) + base64_decode(text.subrange(4, text.len() as int))
    }
}

proof fn lemma_base64_digit(v: int)
    requires
        0 <= v < 64,
    ensures
        base64_value(base64_digit(v)) == v,
        base64_digit(v) != '=',
{
}

/// Decoding the standard base64 text of any bytes gives those bytes back.
pub proof fn law_base64_round_trip(bytes: Seq<u8>)
    ensures
        base64_decode(base64_standard(bytes)) == bytes,
    decreases bytes.len(),
{
    if bytes.len() == 0 {
    } else if bytes.len() == 1 {
        let a = bytes[0] as int;
        lemma_base64_digit(a / 4);
        lemma_base64_digit((a % 4) * 16);
        let t = base64_standard(bytes);
        assert(t.subrange(0, 4) == t);
        assert(base64_decode(t.subrange(4, 4)) == Seq::<u8>::empty());
        assert(base64_decode(t) == bytes);
    } else if bytes.len() == 2 {
        let a = bytes[0] as int;
        let b = bytes[1] as int;
        lemma_base64_digit(a / 4);
        lemma_base64_digit((a % 4) * 16 + b / 16);
        lemma_base64_digit((b % 16) * 4);
        let t = base64_standard(bytes);
        assert(t.subrange(0, 4) == t);
        assert(base64_decode(t.subrange(4, 4)) == Seq::<u8>::empty());
        assert(base64_decode(t) == bytes);
    } else {
        let a = bytes[0] as int;
        let b = bytes[1] as int;
        let c = bytes[2] as int;
        lemma_base64_digit(a / 4);
        lemma_base64_digit((a % 4) * 16 + b / 16);
        lemma_base64_digit((b % 16) * 4 + c / 64);
        lemma_base64_digit(c % 64);
        let rest = bytes.subrange(3, bytes.len() as int);
        law_base64_round_trip(rest);
        let t = base64_standard(bytes);
        let q = t.subrange(0, 4);
        assert(t.subrange(4, t.len() as int) == base64_standard(rest));
        assert(base64_group_bytes(q) == bytes.subrange(0, 3));
        assert(bytes == bytes.subrange(0, 3) + rest);
    }
}

/// Calls `base64::engine::general_purpose::STANDARD.encode(bytes)`, which
/// writes standard padded base64 as [`base64_standard`] spells it out.
#[verifier::external_body]
fn encode_base64(bytes: &[u8]) -> (r: String)
    ensures
        r@ == base64_standard(bytes@),
{
    base64::Engine::encode(&base64::engine::general_purpose::STANDARD, bytes)
}

/// An MCP `image` content block.
#[derive(Debug)]
pub struct ImageBlock {
    /// Always `image`.
    pub block_type: String,
    /// The image, base64-encoded.
    pub data: String,
    pub mime_type: String,
}

/// The `image` content block carrying the PNG bytes `png`, base64-encoded.
pub fn png_image_block(png: &[u8]) -> (b: ImageBlock)
    ensures
        b.block_type@ == "image"@,
        b.data@ == base64_standard(png@),
        base64_decode(b.data@) == png@,
        b.mime_type@ == "image/png"@,
{
    proof {
        law_base64_round_trip(png@);
    }
    ImageBlock {
        block_type: String::from_str("image"),
        data: encode_base64(png),
        mime_type: String::from_str("image/png"),
    }
}

/// A content block of a tool reply.
#[derive(Debug)]
pub enum Content {
    Text(String),
    Image(ImageBlock),
}

/// A reply to a tool call.
#[derive(Debug)]
pub struct ToolReply {
    pub content: Vec<Content>,
    pub is_error: bool,
}

} // verus!
