//! What holds of every classification, whatever the taxonomy and the error.

use crate::fingerprint::base64_url_no_pad;
use crate::fingerprint::be_bytes_of;
use crate::fingerprint::digest_of;
use crate::fingerprint::fingerprint_of;
use crate::fingerprint::fingerprint_of_digest;
use crate::fingerprint::sextet;
use crate::fingerprint::url_safe_symbol;
use crate::info::fallback_message;
use crate::info::ErrorInfoView;
use crate::taxonomy::TaxonomyView;
use vstd::prelude::*;

verus! {

/// The classification of a variant is a function of the taxonomy, the tag,
/// the parsed application code and the diagnostic text: records of the same
/// variant and text agree on code, fingerprint and messages and render alike,
/// whatever their application codes.
pub proof fn lemma_classification_repeatable<T, U>(
    taxonomy: TaxonomyView,
    tag: int,
    text: Seq<char>,
    first: ErrorInfoView<T>,
    second: ErrorInfoView<U>,
)
    requires
        0 <= tag < taxonomy.variants.len(),
        first == taxonomy.classification(tag, first.app_code, text),
        second == taxonomy.classification(tag, second.app_code, text),
    ensures
        first.code == second.code,
        first.hash == second.hash,
        first.client_msg == second.client_msg,
        first.server_msg == second.server_msg,
        first.display_text() == second.display_text(),
        first.debug_text() == second.debug_text(),
{
}

/// The code of a record is the taxonomy's prefix followed by the variant's
/// short code, whatever the payload put into the diagnostic text.
pub proof fn lemma_code_ignores_payload<T>(
    taxonomy: TaxonomyView,
    tag: int,
    app_code: T,
    text: Seq<char>,
    other_text: Seq<char>,
)
    requires
        0 <= tag < taxonomy.variants.len(),
    ensures
        taxonomy.classification(tag, app_code, text).code == taxonomy.prefix
            + taxonomy.variants[tag].code,
        taxonomy.classification(tag, app_code, text).code == taxonomy.classification(
            tag,
            app_code,
            other_text,
        ).code,
        taxonomy.arm(tag).code == taxonomy.classification(tag, app_code, text).code,
{
}

/// Where no two variants share a name, a name selects at most one variant.
pub proof fn lemma_unique_names_select_one(taxonomy: TaxonomyView, name: Seq<char>, tag: int, other: int)
    requires
        taxonomy.names_unique(),
        0 <= tag < taxonomy.variants.len(),
        0 <= other < taxonomy.variants.len(),
        taxonomy.variants[tag].name == name,
        taxonomy.variants[other].name == name,
    ensures
        tag == other,
{
    if tag < other {
        assert(taxonomy.variants[tag].name != taxonomy.variants[other].name);
    } else if other < tag {
        assert(taxonomy.variants[other].name != taxonomy.variants[tag].name);
    }
}

/// Every classification bears the fingerprint of its diagnostic text.
pub proof fn lemma_classification_wf<T>(taxonomy: TaxonomyView, tag: int, app_code: T, text: Seq<char>)
    ensures
        taxonomy.classification(tag, app_code, text).wf(),
{
}

/// Two records whose diagnostic texts are equal bear equal fingerprints,
/// whatever else they hold.
pub proof fn lemma_equal_text_equal_hash<T, U>(first: ErrorInfoView<T>, second: ErrorInfoView<U>)
    requires
        first.wf(),
        second.wf(),
        first.server_msg == second.server_msg,
    ensures
        first.hash == second.hash,
{
}

/// Two records bear different fingerprints exactly when the digests of their
/// diagnostic texts differ.
pub proof fn lemma_hashes_differ_as_digests_differ<T, U>(
    first: ErrorInfoView<T>,
    second: ErrorInfoView<U>,
)
    requires
        first.wf(),
        second.wf(),
    ensures
        (first.hash != second.hash) <==> (digest_of(first.server_msg) != digest_of(second.server_msg)),
{
    lemma_hash_differs_as_digest_differs(first.server_msg, second.server_msg);
}

/// A record shows a client the fallback exactly where no message is
/// configured, and the configured message verbatim otherwise.
pub proof fn lemma_client_message_fallback<T>(info: ErrorInfoView<T>)
    ensures
        info.client_msg.len() == 0 ==> info.client_message() == fallback_message(),
        info.client_msg.len() != 0 ==> info.client_message() == info.client_msg,
{
}

/// The client-safe line is made of the code, the fingerprint and the client
/// message alone: records that agree on these render alike, whatever their
/// diagnostic texts.
pub proof fn lemma_display_ignores_server_msg<T, U>(first: ErrorInfoView<T>, second: ErrorInfoView<U>)
    requires
        first.code == second.code,
        first.hash == second.hash,
        first.client_msg == second.client_msg,
    ensures
        first.display_text() == second.display_text(),
{
}

/// The internal line ends with the whole diagnostic text.
pub proof fn lemma_debug_ends_with_server_msg<T>(info: ErrorInfoView<T>)
    ensures
        info.debug_text().len() >= info.server_msg.len(),
        info.debug_text().subrange(
            info.debug_text().len() - info.server_msg.len(),
            info.debug_text().len() as int,
        ) == info.server_msg,
{
    let line = info.debug_text();
    let tail = line.subrange(line.len() - info.server_msg.len(), line.len() as int);
    assert(tail =~= info.server_msg);
}

/// The six-bit value that a symbol of the URL-safe alphabet stands for.
spec fn symbol_value(c: char) -> int {
    if 'A' <= c <= 'Z' {
        c as int - 'A' as int
    } else if 'a' <= c <= 'z' {
        c as int - 'a' as int + 26
    } else if '0' <= c <= '9' {
        c as int - '0' as int + 52
    } else if c == '-' {
        62
    } else {
        63
    }
}

/// Each six-bit value is read back from its symbol: no two values share one.
proof fn lemma_symbol_value(v: int)
    requires
        0 <= v < 64,
    ensures
        symbol_value(url_safe_symbol(v)) == v,
{
    reveal_strlit("ABCDEFGHIJKLMNOPQRSTUVWXYZabcdefghijklmnopqrstuvwxyz0123456789-_");
    // Naming the values one by one lets the solver look each symbol up.
    if v < 16 {
        assert(v == 0 || v == 1 || v == 2 || v == 3
            || v == 4 || v == 5 || v == 6 || v == 7
            || v == 8 || v == 9 || v == 10 || v == 11
            || v == 12 || v == 13 || v == 14 || v == 15);
    } else if v < 32 {
        assert(v == 16 || v == 17 || v == 18 || v == 19
            || v == 20 || v == 21 || v == 22 || v == 23
            || v == 24 || v == 25 || v == 26 || v == 27
            || v == 28 || v == 29 || v == 30 || v == 31);
    } else if v < 48 {
        assert(v == 32 || v == 33 || v == 34 || v == 35
            || v == 36 || v == 37 || v == 38 || v == 39
            || v == 40 || v == 41 || v == 42 || v == 43
            || v == 44 || v == 45 || v == 46 || v == 47);
    } else {
        assert(v == 48 || v == 49 || v == 50 || v == 51
            || v == 52 || v == 53 || v == 54 || v == 55
            || v == 56 || v == 57 || v == 58 || v == 59
            || v == 60 || v == 61 || v == 62 || v == 63);
    }
}

/// A 64-bit value is fixed by its eight bytes.
proof fn lemma_be_bytes_injective(a: u64, b: u64)
    requires
        be_bytes_of(a) == be_bytes_of(b),
    ensures
        a == b,
{
    let x = be_bytes_of(a);
    let y = be_bytes_of(b);
    assert(x[0] == y[0] && x[1] == y[1] && x[2] == y[2] && x[3] == y[3]);
    assert(x[4] == y[4] && x[5] == y[5] && x[6] == y[6] && x[7] == y[7]);
    assert(a / 0x100_0000_0000_0000 < 256 && b / 0x100_0000_0000_0000 < 256) by (bit_vector);
    assert(a == b) by (bit_vector)
        requires
            a / 0x100_0000_0000_0000 == b / 0x100_0000_0000_0000,
            a / 0x1_0000_0000_0000 % 256 == b / 0x1_0000_0000_0000 % 256,
            a / 0x100_0000_0000 % 256 == b / 0x100_0000_0000 % 256,
            a / 0x1_0000_0000 % 256 == b / 0x1_0000_0000 % 256,
            a / 0x100_0000 % 256 == b / 0x100_0000 % 256,
            a / 0x1_0000 % 256 == b / 0x1_0000 % 256,
            a / 0x100 % 256 == b / 0x100 % 256,
            a % 256 == b % 256,
    ;
}

/// The same in bit-vector form, over the windows of two neighbouring bytes.
proof fn lemma_windows_fixed(pq: u32, qr: u32, rx: u32, pq2: u32, qr2: u32, rx2: u32)
    requires
        pq < 65536 && qr < 65536 && rx < 65536,
        pq2 < 65536 && qr2 < 65536 && rx2 < 65536,
        pq % 256 == qr / 256 && qr % 256 == rx / 256,
        pq2 % 256 == qr2 / 256 && qr2 % 256 == rx2 / 256,
        pq / 1024 % 64 == pq2 / 1024 % 64,
        pq / 16 % 64 == pq2 / 16 % 64,
        qr / 64 % 64 == qr2 / 64 % 64,
        rx / 256 % 64 == rx2 / 256 % 64,
    ensures
        pq == pq2 && qr == qr2,
{
    assert(pq == pq2 && qr == qr2) by (bit_vector)
        requires
            pq < 65536 && qr < 65536 && rx < 65536,
            pq2 < 65536 && qr2 < 65536 && rx2 < 65536,
            pq % 256 == qr / 256 && qr % 256 == rx / 256,
            pq2 % 256 == qr2 / 256 && qr2 % 256 == rx2 / 256,
            pq / 1024 % 64 == pq2 / 1024 % 64,
            pq / 16 % 64 == pq2 / 16 % 64,
            qr / 64 % 64 == qr2 / 64 % 64,
            rx / 256 % 64 == rx2 / 256 % 64,
    ;
}

/// A window of two bytes holds the first as its quotient by 256 and the
/// second as its remainder.
proof fn lemma_window_parts(hi: u8, lo: u8)
    ensures
        hi * 256 + lo < 65536,
        ((hi * 256 + lo) as u32) / 256 == hi,
        ((hi * 256 + lo) as u32) % 256 == lo,
{
}

/// Three bytes are fixed by the four groups of six bits that they fill.
proof fn lemma_group_fixed(p: u8, q: u8, r: u8, x: u8, p2: u8, q2: u8, r2: u8, x2: u8)
    requires
        (p * 256 + q) / 1024 % 64 == (p2 * 256 + q2) / 1024 % 64,
        (p * 256 + q) / 16 % 64 == (p2 * 256 + q2) / 16 % 64,
        (q * 256 + r) / 64 % 64 == (q2 * 256 + r2) / 64 % 64,
        (r * 256 + x) / 256 % 64 == (r2 * 256 + x2) / 256 % 64,
    ensures
        p == p2 && q == q2 && r == r2,
{
    let pq = (p * 256 + q) as u32;
    let qr = (q * 256 + r) as u32;
    let rx = (r * 256 + x) as u32;
    let pq2 = (p2 * 256 + q2) as u32;
    let qr2 = (q2 * 256 + r2) as u32;
    let rx2 = (r2 * 256 + x2) as u32;
    lemma_window_parts(p, q);
    lemma_window_parts(q, r);
    lemma_window_parts(r, x);
    lemma_window_parts(p2, q2);
    lemma_window_parts(q2, r2);
    lemma_window_parts(r2, x2);
    lemma_windows_fixed(pq, qr, rx, pq2, qr2, rx2);
}

/// Eight bytes are fixed by their eleven groups of six bits.
proof fn lemma_sextets_fix_bytes(a: Seq<u8>, b: Seq<u8>)
    requires
        a.len() == 8,
        b.len() == 8,
        forall|k: int| 0 <= k < 11 ==> sextet(a, k) == sextet(b, k),
    ensures
        a == b,
{
    assert(a[0] == b[0] && a[1] == b[1] && a[2] == b[2]) by {
        assert(sextet(a, 0) == sextet(b, 0) && sextet(a, 1) == sextet(b, 1) && sextet(a, 2) == sextet(
            b,
            2,
        ) && sextet(a, 3) == sextet(b, 3));
        lemma_group_fixed(a[0], a[1], a[2], a[3], b[0], b[1], b[2], b[3]);
    }
    assert(a[3] == b[3] && a[4] == b[4] && a[5] == b[5]) by {
        assert(sextet(a, 4) == sextet(b, 4) && sextet(a, 5) == sextet(b, 5) && sextet(a, 6) == sextet(
            b,
            6,
        ) && sextet(a, 7) == sextet(b, 7));
        lemma_group_fixed(a[3], a[4], a[5], a[6], b[3], b[4], b[5], b[6]);
    }
    assert(a[6] == b[6] && a[7] == b[7]) by {
        assert(sextet(a, 8) == sextet(b, 8) && sextet(a, 9) == sextet(b, 9) && sextet(a, 10) == sextet(
            b,
            10,
        ));
        lemma_group_fixed(a[6], a[7], 0, 0, b[6], b[7], 0, 0);
    }
    assert(a =~= b);
}

/// The encoding loses nothing: digests with the same fingerprint are the
/// same digest.
pub proof fn lemma_fingerprint_of_digest_injective(a: u64, b: u64)
    requires
        fingerprint_of_digest(a) == fingerprint_of_digest(b),
    ensures
        a == b,
{
    let x = be_bytes_of(a);
    let y = be_bytes_of(b);
    assert forall|k: int| 0 <= k < 11 implies sextet(x, k) == sextet(y, k) by {
        assert(base64_url_no_pad(x)[k] == base64_url_no_pad(y)[k]);
        assert(0 <= sextet(x, k) < 64 && 0 <= sextet(y, k) < 64);
        lemma_symbol_value(sextet(x, k));
        lemma_symbol_value(sextet(y, k));
    }
    lemma_sextets_fix_bytes(x, y);
    lemma_be_bytes_injective(a, b);
}

/// The fingerprints of two texts are equal exactly when their digests are:
/// equal texts have equal fingerprints, and texts with distinct digests have
/// distinct fingerprints.
pub proof fn lemma_hash_differs_as_digest_differs(text: Seq<char>, other: Seq<char>)
    ensures
        text == other ==> fingerprint_of(text) == fingerprint_of(other),
        (fingerprint_of(text) == fingerprint_of(other)) <==> (digest_of(text) == digest_of(other)),
{
    if fingerprint_of(text) == fingerprint_of(other) {
        lemma_fingerprint_of_digest_injective(digest_of(text), digest_of(other));
    }
}

} // verus!
