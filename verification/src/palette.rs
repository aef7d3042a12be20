use vstd::prelude::*;

verus! {

/// The PLTE chunk data for a palette given as a flat RGBA byte sequence:
/// the RGB triple of every entry, in order, alpha dropped.
pub open spec fn spec_plte(palette: Seq<u8>) -> Seq<u8>
    recommends
        palette.len() % 4 == 0,
{
    Seq::new((palette.len() / 4 * 3) as nat, |i: int| palette[i / 3 * 4 + i % 3])
}

/// The tRNS chunk data for a palette given as a flat RGBA byte sequence:
/// one alpha value per entry, in order.
pub open spec fn spec_trns(palette: Seq<u8>) -> Seq<u8>
    recommends
        palette.len() % 4 == 0,
{
    Seq::new((palette.len() / 4) as nat, |i: int| palette[4 * i + 3])
}

/// Whether any palette entry is not fully opaque; only then does the
/// encoded PNG need a transparency chunk.
pub open spec fn spec_has_transparency(palette: Seq<u8>) -> bool {
    exists|k: int| 0 <= k < palette.len() / 4 && #[trigger] palette[4 * k + 3] < 255
}

/// Splits a flat RGBA palette into the PLTE bytes, the tRNS bytes, and
/// whether any entry carries transparency.
pub fn split_palette(palette: &Vec<u8>) -> (r: (Vec<u8>, Vec<u8>, bool))
    requires
        palette@.len() % 4 == 0,
    ensures
        r.0@ == spec_plte(palette@),
        r.1@ == spec_trns(palette@),
        r.2 == spec_has_transparency(palette@),
{
    let len = palette.len();
    let n = len / 4;
    let mut plte: Vec<u8> = Vec::new();
    let mut trns: Vec<u8> = Vec::new();
    let mut has_t = false;
    let mut i: usize = 0;
    while i < n
        invariant
            i <= n,
            len == palette@.len(),
            n == palette@.len() / 4,
            palette@.len() % 4 == 0,
            plte@.len() == 3 * i,
            trns@.len() == i,
            forall|k: int| 0 <= k < 3 * i ==> plte@[k] == palette@[k / 3 * 4 + k % 3],
            forall|k: int| 0 <= k < i ==> trns@[k] == palette@[4 * k + 3],
            has_t == exists|k: int| 0 <= k < i && #[trigger] palette@[4 * k + 3] < 255,
        decreases n - i,
    {
        proof {
            assert(4 * i + 3 < palette@.len());
        }
        plte.push(palette[4 * i]);
        plte.push(palette[4 * i + 1]);
        plte.push(palette[4 * i + 2]);
        let alpha = palette[4 * i + 3];
        trns.push(alpha);
        if alpha < 255 {
            has_t = true;
        }
        i = i + 1;
    }
    proof {
        assert(plte@ =~= spec_plte(palette@));
        assert(trns@ =~= spec_trns(palette@));
    }
    (plte, trns, has_t)
}

} // verus!
