//! The QR code shown for a share link: the code of the link's bytes with a
//! quiet border of two light modules around it.

use vstd::prelude::*;

verus! {

/// The QR code `qrcode::QrCode::new` makes of some bytes (error correction
/// level M, smallest version that fits): its width and its modules row by
/// row, dark ones `true`; nothing when the bytes do not fit in any version.
pub uninterp spec fn qr_code_of(data: Seq<u8>) -> Option<(nat, Seq<bool>)>;

/// `qrcode::QrCode::new`, then `width` and `to_colors`. The source builds
/// normal codes only (versions 1 to 40, so 21 to 177 modules wide) and keeps
/// width × width modules; which modules are dark is left to the name.
#[verifier::external_body]
fn encode_qr(data: &[u8]) -> (r: Option<(usize, Vec<bool>)>)
    ensures
        match r {
            Some((w, m)) => qr_code_of(data@) == Some((w as nat, m@)) && 21 <= w <= 177
                && m@.len() == w * w,
            None => qr_code_of(data@) is None,
        },
{
    match qrcode::QrCode::new(data) {
        Ok(code) => Some((
            code.width(),
            code.to_colors().into_iter().map(|c| match c {
                qrcode::Color::Dark => true,
                qrcode::Color::Light => false,
            }).collect(),
        )),
        Err(_) => None,
    }
}

/// A square of modules, row by row; `true` is dark.
#[derive(Clone, Debug)]
pub struct CompactQr {
    pub size: usize,
    pub modules: Vec<bool>,
}

pub open spec fn quiet_border() -> nat {
    2
}

/// The module at column `x`, row `y` of the bordered square: the code's module
/// inside the border, light outside.
pub open spec fn bordered_module(w: nat, m: Seq<bool>, x: nat, y: nat) -> bool {
    let b = quiet_border();
    if b <= x < b + w && b <= y < b + w {
        m[((y - b) * w + (x - b)) as int]
    } else {
        false
    }
}

pub open spec fn bordered(w: nat, m: Seq<bool>) -> Seq<bool> {
    let size = w + 2 * quiet_border();
    Seq::new(size * size, |k: int| bordered_module(w, m, (k % size as int) as nat, (k / size as int) as nat))
}

/// Puts the quiet border around a code of width `w`.
pub fn with_quiet_border(w: usize, m: &Vec<bool>) -> (r: CompactQr)
    requires
        w <= 177,
        m@.len() == w * w,
    ensures
        r.size == w + 4,
        r.modules@ == bordered(w as nat, m@),
{
    let size = w + 4;
    assert(size * size <= 181 * 181) by (nonlinear_arith)
        requires
            size <= 181,
    ;
    let total = size * size;
    let mut out: Vec<bool> = Vec::new();
    let mut k: usize = 0;
    while k < total
        invariant
            w <= 177,
            m@.len() == w * w,
            size == w + 4,
            total == size * size,
            0 <= k <= total,
            out@ == bordered(w as nat, m@).subrange(0, k as int),
        decreases total - k,
    {
        let x = k % size;
        let y = k / size;
        let v = if x >= 2 && x < 2 + w && y >= 2 && y < 2 + w {
            let sx = x - 2;
            let sy = y - 2;
            assert(sy * w + sx < w * w) by (nonlinear_arith)
                requires
                    sy < w,
                    sx < w,
            ;
            assert(w * w <= 177 * 177) by (nonlinear_arith)
                requires
                    w <= 177,
            ;
            m[sy * w + sx]
        } else {
            false
        };
        out.push(v);
        assert(out@ =~= bordered(w as nat, m@).subrange(0, k + 1));
        k = k + 1;
    }
    assert(bordered(w as nat, m@).subrange(0, total as int) =~= bordered(w as nat, m@));
    CompactQr { size, modules: out }
}

/// The module at column `x`, row `y` sits at `y * size + x`.
pub proof fn lemma_bordered_index(w: nat, m: Seq<bool>, x: nat, y: nat)
    requires
        x < w + 4,
        y < w + 4,
    ensures
        bordered(w, m)[(y * (w + 4) + x) as int] == bordered_module(w, m, x, y),
{
    let size = w + 4;
    assert(y * size + x < size * size) by (nonlinear_arith)
        requires
            x < size,
            y < size,
    ;
    vstd::arithmetic::div_mod::lemma_fundamental_div_mod_converse(
        (y * size + x) as int,
        size as int,
        y as int,
        x as int,
    );
}

/// The bordered QR code of a link, or nothing when the link is too long for
/// any QR code.
pub fn make_compact_qr(content: &str) -> (r: Option<CompactQr>)
    ensures
        match qr_code_of(vstd::utf8::encode_utf8(content@)) {
            Some((w, m)) => r is Some && r->0.size == w + 4 && r->0.modules@ == bordered(w, m),
            None => r is None,
        },
{
    let bytes = content.as_bytes();
    match encode_qr(bytes) {
        Some((w, m)) => Some(with_quiet_border(w, &m)),
        None => None,
    }
}

/// What the QR dialog draws: the code of the link, or a single light module
/// when the link has no code.
pub fn qr_or_placeholder(qr: Option<CompactQr>) -> (r: CompactQr)
    ensures
        match qr {
            Some(q) => r == q,
            None => r.size == 1 && r.modules@ == seq![false],
        },
{
    match qr {
        Some(q) => q,
        None => CompactQr { size: 1, modules: vec![false] },
    }
}

} // verus!
