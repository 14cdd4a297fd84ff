//! Shell utilities. The filesystem and image-decoding work of the
//! shell's utility object lives with the caller; what is owned — and
//! proved — here is everything that computes on plain values: the
//! URL-to-path rule, the downscale-dimension rule, and the choice of the
//! wallpaper's dominant color from a quantized palette.

use vstd::prelude::*;

verus! {

/// Whether a text is a file URL: it starts with "file://".
pub open spec fn is_file_url(s: Seq<char>) -> bool {
    s.len() >= 7 && s.subrange(0, 7) == "file://"@
}

/// The representative palette of an image given as packed RGB bytes
/// (three per pixel), sampling every 10th pixel and asking for up to 5
/// colors; `None` when quantization fails. The palette depends on the
/// bytes alone.
pub uninterp spec fn palette_of(bytes: Seq<u8>) -> Option<Seq<(u8, u8, u8)>>;

/// Relies on color_thief::get_palette, called on packed RGB bytes with
/// sampling quality 10 and at most 5 colors: the palette is a function of
/// the bytes alone, and the palette's colors are returned most dominant
/// first.
#[verifier::external_body]
fn quantized_palette(rgb: &Vec<u8>) -> (r: Option<Vec<(u8, u8, u8)>>)
    ensures
        r is Some == palette_of(rgb@) is Some,
        r matches Some(p) ==> palette_of(rgb@) matches Some(q) && p@ == q,
{
    match color_thief::get_palette(rgb.as_slice(), color_thief::ColorFormat::Rgb, 10, 5) {
        Ok(palette) => Some(palette.iter().map(|c| (c.r, c.g, c.b)).collect()),
        Err(_) => None,
    }
}

/// The shell's utility surface.
#[derive(Default)]
pub struct CUtils;

impl CUtils {
    /// The edge length to downscale a wallpaper to before analysis: the
    /// requested size when one is given (at least 1), 128 otherwise.
    pub fn rescale_dim(&self, rescale_size: Option<i32>) -> (r: u32)
        ensures
            rescale_size matches Some(s) ==> r == (if s < 1 {
                1u32
            } else {
                s as u32
            }),
            rescale_size is None ==> r == 128,
    {
        match rescale_size {
            Some(s) => if s < 1 {
                1
            } else {
                s as u32
            },
            None => 128,
        }
    }

    /// The dominant color of an image given as packed RGB bytes: the
    /// most dominant color of its quantized palette, and black when
    /// quantization fails or yields nothing.
    pub fn dominant_color(&self, rgb: &Vec<u8>) -> (c: (u8, u8, u8))
        ensures
            (match palette_of(rgb@) {
                Some(p) => if p.len() > 0 {
                    c == p[0]
                } else {
                    c == (0u8, 0u8, 0u8)
                },
                None => c == (0u8, 0u8, 0u8),
            }),
    {
        match quantized_palette(rgb) {
            Some(palette) => {
                if palette.len() > 0 {
                    palette[0]
                } else {
                    (0, 0, 0)
                }
            },
            None => (0, 0, 0),
        }
    }

    /// Converts a URL to a local file path: a "file://" prefix is
    /// removed, any other text passes through unchanged.
    pub fn to_local_file(&self, url: &str) -> (r: String)
        ensures
            is_file_url(url@) ==> r@ == url@.skip(7),
            !is_file_url(url@) ==> r@ == url@,
    {
        proof {
            reveal_strlit("file://");
        }
        let n = url.unicode_len();
        if n >= 7 && url.get_char(0) == 'f' && url.get_char(1) == 'i' && url.get_char(2) == 'l'
            && url.get_char(3) == 'e' && url.get_char(4) == ':' && url.get_char(5) == '/'
            && url.get_char(6) == '/' {
            proof {
                assert(url@.subrange(0, 7) =~= "file://"@);
            }
            let rest = url.substring_char(7, n);
            proof {
                assert(url@.subrange(7, n as int) =~= url@.skip(7));
            }
            rest.to_owned()
        } else {
            proof {
                if url@.len() >= 7 && url@.subrange(0, 7) == "file://"@ {
                    assert(url@.subrange(0, 7)[0] == url@[0]);
                    assert(url@.subrange(0, 7)[1] == url@[1]);
                    assert(url@.subrange(0, 7)[2] == url@[2]);
                    assert(url@.subrange(0, 7)[3] == url@[3]);
                    assert(url@.subrange(0, 7)[4] == url@[4]);
                    assert(url@.subrange(0, 7)[5] == url@[5]);
                    assert(url@.subrange(0, 7)[6] == url@[6]);
                }
            }
            url.to_owned()
        }
    }
}

} // verus!
