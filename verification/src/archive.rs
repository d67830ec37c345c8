//! The minimal archive builder.
//!
//! The loader is injected through a container file with exactly two entries:
//! a generated bootstrap script (`index.js`, a single `require` of the
//! loader path) and a fixed manifest (`package.json`). The layout is four
//! little-endian 32-bit integers, a JSON header padded with spaces to a
//! four-byte boundary, and the two entry contents concatenated in their
//! declared order. The consumer expects this byte layout bit for bit, so the
//! specification pins every byte.

use vstd::prelude::*;
use crate::handler::{ErrorCode, InstallerError, InstallerResult};
use crate::text::{ascii_bytes, dec_bytes, push_ascii, push_dec};

verus! {

/// What serde_json's serializer returns for a string: its quoted, escaped
/// JSON form, as UTF-8 bytes. Named rather than written out; the escaping
/// rules are serde_json's own, and the result depends on the characters
/// alone.
pub uninterp spec fn json_string_bytes(s: Seq<char>) -> Seq<u8>;

/// Relies on serde_json::to_string: the result is the JSON string form of
/// the input. Serializing a `&str` writes into a byte buffer and cannot
/// fail, so the unwrap never panics.
#[verifier::external_body]
fn json_quote(s: &str) -> (r: Vec<u8>)
    ensures
        r@ == json_string_bytes(s@),
{
    serde_json::to_string(s).unwrap().into_bytes()
}

/// The bootstrap script: a single `require` of the quoted loader path.
pub open spec fn index_js_bytes(j: Seq<u8>) -> Seq<u8> {
    ascii_bytes("require("@) + j + ascii_bytes(")"@)
}

/// The fixed manifest document.
pub open spec fn package_json_bytes() -> Seq<u8> {
    ascii_bytes("{ \"name\": \"discord\", \"main\": \"index.js\" }"@)
}

/// The JSON header: each entry name mapped to its byte size and to the
/// offset of its content within the concatenated content blob, the offset as
/// a decimal string. `index.js` comes first and starts at offset 0;
/// `package.json` follows at the offset equal to the script's size.
pub open spec fn header_bytes(j: Seq<u8>) -> Seq<u8> {
    ascii_bytes("{\"files\":{\"index.js\":{\"size\":"@) + dec_bytes(index_js_bytes(j).len())
        + ascii_bytes(",\"offset\":\"0\"},\"package.json\":{\"size\":"@) + dec_bytes(
        package_json_bytes().len(),
    ) + ascii_bytes(",\"offset\":\""@) + dec_bytes(index_js_bytes(j).len()) + ascii_bytes(
        "\"}}}"@,
    )
}

/// `n` rounded up to the next multiple of 4.
pub open spec fn align4(n: nat) -> nat {
    ((n + 3) / 4) * 4
}

/// The little-endian bytes of a 32-bit value.
pub open spec fn le32(n: nat) -> Seq<u8> {
    seq![
        (n % 256) as u8,
        ((n / 256) % 256) as u8,
        ((n / 65536) % 256) as u8,
        ((n / 16777216) % 256) as u8,
    ]
}

/// `n` ASCII spaces.
pub open spec fn pad_spaces(n: nat) -> Seq<u8> {
    Seq::new(n, |i: int| 32u8)
}

/// The whole archive for a quoted loader path `j`: the four little-endian
/// size words, the space-padded header, then the two entry contents.
pub open spec fn asar_bytes(j: Seq<u8>) -> Seq<u8> {
    let h = header_bytes(j);
    let a = align4(h.len());
    le32(4) + le32(a + 8) + le32(a + 4) + le32(h.len()) + h + pad_spaces((a - h.len()) as nat)
        + index_js_bytes(j) + package_json_bytes()
}

/// The size fields fit 32 bits exactly when this holds.
pub open spec fn asar_sizes_fit(j: Seq<u8>) -> bool {
    align4(header_bytes(j).len()) + 8 <= 0xFFFFFFFF
}

/// Appends the little-endian bytes of `v`.
fn push_le32(out: &mut Vec<u8>, v: u32)
    ensures
        final(out)@ == old(out)@ + le32(v as nat),
{
    out.push((v % 256) as u8);
    out.push(((v / 256) % 256) as u8);
    out.push(((v / 65536) % 256) as u8);
    out.push(((v / 16777216) % 256) as u8);
    proof {
        assert(out@ =~= old(out)@ + le32(v as nat));
    }
}

/// Builds the archive that injects the loader at `patcher_path`: the bytes
/// are a function of the path alone, so repeated builds are byte-identical.
/// Fails only when the header would overflow the 32-bit size fields.
pub fn build_app_asar(patcher_path: &str) -> (r: InstallerResult<Vec<u8>>)
    ensures
        match r {
            Ok(bytes) => asar_sizes_fit(json_string_bytes(patcher_path@)) && bytes@ == asar_bytes(
                json_string_bytes(patcher_path@),
            ),
            Err(e) => e.code == ErrorCode::ErrUnknown && !asar_sizes_fit(
                json_string_bytes(patcher_path@),
            ),
        },
{
    let ghost jb = json_string_bytes(patcher_path@);
    proof {
        reveal_strlit("require(");
        reveal_strlit(")");
        reveal_strlit("{ \"name\": \"discord\", \"main\": \"index.js\" }");
        reveal_strlit("{\"files\":{\"index.js\":{\"size\":");
        reveal_strlit(",\"offset\":\"0\"},\"package.json\":{\"size\":");
        reveal_strlit(",\"offset\":\"");
        reveal_strlit("\"}}}");
        assert(vstd::string::is_ascii("require("));
        assert(vstd::string::is_ascii(")"));
        assert(vstd::string::is_ascii("{ \"name\": \"discord\", \"main\": \"index.js\" }"));
        assert(vstd::string::is_ascii("{\"files\":{\"index.js\":{\"size\":"));
        assert(vstd::string::is_ascii(",\"offset\":\"0\"},\"package.json\":{\"size\":"));
        assert(vstd::string::is_ascii(",\"offset\":\""));
        assert(vstd::string::is_ascii("\"}}}"));
    }

    let mut index_js: Vec<u8> = Vec::new();
    push_ascii(&mut index_js, "require(");
    let mut quoted = json_quote(patcher_path);
    index_js.append(&mut quoted);
    push_ascii(&mut index_js, ")");
    proof {
        assert(index_js@ =~= index_js_bytes(jb));
    }

    let mut pkg_json: Vec<u8> = Vec::new();
    push_ascii(&mut pkg_json, "{ \"name\": \"discord\", \"main\": \"index.js\" }");
    proof {
        assert(pkg_json@ =~= package_json_bytes());
    }

    let index_js_len = index_js.len();
    let pkg_json_len = pkg_json.len();

    let mut header: Vec<u8> = Vec::new();
    push_ascii(&mut header, "{\"files\":{\"index.js\":{\"size\":");
    push_dec(&mut header, index_js_len as u64);
    push_ascii(&mut header, ",\"offset\":\"0\"},\"package.json\":{\"size\":");
    push_dec(&mut header, pkg_json_len as u64);
    push_ascii(&mut header, ",\"offset\":\"");
    push_dec(&mut header, index_js_len as u64);
    push_ascii(&mut header, "\"}}}");
    proof {
        assert(header@ =~= header_bytes(jb));
    }

    let header_len = header.len();
    let aligned_wide: u128 = ((header_len as u128 + 3) / 4) * 4;
    proof {
        assert(aligned_wide == align4(header_len as nat));
    }
    if aligned_wide + 8 > 0xFFFFFFFF {
        let mut m = String::new();
        m.append("The archive header is too large");
        return Err(InstallerError { code: ErrorCode::ErrUnknown, message: m });
    }
    let aligned: u32 = aligned_wide as u32;

    let mut out: Vec<u8> = Vec::new();
    push_le32(&mut out, 4);
    push_le32(&mut out, aligned + 8);
    push_le32(&mut out, aligned + 4);
    push_le32(&mut out, header_len as u32);
    out.append(&mut header);
    proof {
        assert(out@ =~= le32(4) + le32(aligned as nat + 8) + le32(aligned as nat + 4) + le32(
            header_len as nat,
        ) + header_bytes(jb) + pad_spaces(0));
    }
    let mut pad = header_len;
    while pad < aligned as usize
        invariant
            header_len <= pad <= aligned,
            out@ == le32(4) + le32(aligned as nat + 8) + le32(aligned as nat + 4) + le32(
                header_len as nat,
            ) + header_bytes(jb) + pad_spaces((pad - header_len) as nat),
        decreases aligned as usize - pad,
    {
        out.push(32);
        proof {
            assert(out@ =~= le32(4) + le32(aligned as nat + 8) + le32(aligned as nat + 4) + le32(
                header_len as nat,
            ) + header_bytes(jb) + pad_spaces((pad + 1 - header_len) as nat));
        }
        pad = pad + 1;
    }
    out.append(&mut index_js);
    out.append(&mut pkg_json);
    proof {
        assert(out@ =~= asar_bytes(jb));
    }
    Ok(out)
}

/// Law: the archive bytes are a function of the loader path alone — two
/// builds from the same path are byte-identical.
pub proof fn lemma_build_deterministic(path: Seq<char>, b1: Seq<u8>, b2: Seq<u8>)
    requires
        b1 == asar_bytes(json_string_bytes(path)),
        b2 == asar_bytes(json_string_bytes(path)),
    ensures
        b1 == b2,
{
}

/// Law: the padded header always ends on a four-byte boundary, at most three
/// bytes past the raw header.
pub proof fn lemma_header_alignment(j: Seq<u8>)
    ensures
        align4(header_bytes(j).len()) % 4 == 0,
        header_bytes(j).len() <= align4(header_bytes(j).len()) < header_bytes(j).len() + 4,
{
    let n = header_bytes(j).len();
    assert(align4(n) % 4 == 0 && n <= align4(n) < n + 4) by (nonlinear_arith);
}

} // verus!
