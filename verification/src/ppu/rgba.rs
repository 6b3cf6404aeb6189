//! A pixel colour as red, green, blue and alpha bytes.
use vstd::prelude::*;

verus! {

#[derive(Clone, Copy, Debug)]
pub struct Rgba {
    pub rgba: [u8; 4],
}

impl Rgba {
    pub fn black() -> (r: Self)
        ensures
            r.rgba@ == seq![0u8, 0u8, 0u8, 255u8],
    {
        let r = Self { rgba: [0, 0, 0, 255] };
        proof {
            assert(r.rgba@ == seq![0u8, 0u8, 0u8, 255u8]);
        }
        r
    }

    pub fn dark() -> (r: Self)
        ensures
            r.rgba@ == seq![84u8, 84u8, 84u8, 255u8],
    {
        let r = Self { rgba: [84, 84, 84, 255] };
        proof {
            assert(r.rgba@ == seq![84u8, 84u8, 84u8, 255u8]);
        }
        r
    }

    pub fn light() -> (r: Self)
        ensures
            r.rgba@ == seq![168u8, 168u8, 168u8, 255u8],
    {
        let r = Self { rgba: [168, 168, 168, 255] };
        proof {
            assert(r.rgba@ == seq![168u8, 168u8, 168u8, 255u8]);
        }
        r
    }

    pub fn white() -> (r: Self)
        ensures
            r.rgba@ == seq![255u8, 255u8, 255u8, 255u8],
    {
        let r = Self { rgba: [255, 255, 255, 255] };
        proof {
            assert(r.rgba@ == seq![255u8, 255u8, 255u8, 255u8]);
        }
        r
    }
}

impl Default for Rgba {
    fn default() -> (r: Self)
        ensures
            r.rgba@ == seq![0u8, 0u8, 0u8, 0u8],
    {
        let r = Self { rgba: [0u8; 4] };
        proof {
            assert(r.rgba@ == seq![0u8, 0u8, 0u8, 0u8]);
        }
        r
    }
}

} // verus!
