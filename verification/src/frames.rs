//! Decoding the frame images of a pet.

use vstd::prelude::*;

verus! {

/// The image that `bytes` decode to: its width, height and RGBA pixels (four bytes
/// per pixel, row by row), or none when they are no image.
pub uninterp spec fn decoded_image(bytes: Seq<u8>) -> Option<(u32, u32, Seq<u8>)>;

/// Decodes an image file held in memory into RGBA pixels.
///
/// Calls `image::load_from_memory` (which guesses the format from the bytes),
/// then `to_rgba8`, `width`, `height` and `into_raw` on the image. The result
/// depends on the bytes alone; it is named `decoded_image`.
#[verifier::external_body]
pub fn decode_rgba(bytes: &[u8]) -> (r: Option<(u32, u32, Vec<u8>)>)
    ensures
        r is None <==> decoded_image(bytes@) is None,
        (r matches Some((w, h, px)) ==> decoded_image(bytes@) == Some((w, h, px@))),
{
    match image::load_from_memory(bytes) {
        Ok(img) => {
            let rgba = img.to_rgba8();
            Some((rgba.width(), rgba.height(), rgba.into_raw()))
        },
        Err(_) => None,
    }
}

/// The bytes of each file of a list.
pub open spec fn file_bytes(files: Seq<Vec<u8>>) -> Seq<Seq<u8>> {
    files.map_values(|f: Vec<u8>| f@)
}

/// A decoded image with its pixels' bytes.
pub open spec fn image_view(i: (u32, u32, Vec<u8>)) -> (u32, u32, Seq<u8>) {
    (i.0, i.1, i.2@)
}

/// The images of a list, with their pixels' bytes.
pub open spec fn images_view(images: Seq<(u32, u32, Vec<u8>)>) -> Seq<(u32, u32, Seq<u8>)> {
    images.map_values(|i: (u32, u32, Vec<u8>)| image_view(i))
}

/// The images that the first `n` files decode to, in order, leaving out the
/// files that are no image.
pub open spec fn decoded_prefix(files: Seq<Seq<u8>>, n: nat) -> Seq<(u32, u32, Seq<u8>)>
    decreases n,
{
    if n == 0 {
        Seq::empty()
    } else {
        let k = (n - 1) as nat;
        match decoded_image(files[k as int]) {
            Some(i) => decoded_prefix(files, k).push(i),
            None => decoded_prefix(files, k),
        }
    }
}

/// The images that `files` decode to, in order, leaving out the files that are
/// no image.
pub open spec fn decoded_frames(files: Seq<Seq<u8>>) -> Seq<(u32, u32, Seq<u8>)> {
    decoded_prefix(files, files.len())
}

/// The positions, among the first `n` files, of the files that are no image.
pub open spec fn failed_prefix(files: Seq<Seq<u8>>, n: nat) -> Seq<usize>
    decreases n,
{
    if n == 0 {
        Seq::empty()
    } else {
        let k = (n - 1) as nat;
        match decoded_image(files[k as int]) {
            Some(_) => failed_prefix(files, k),
            None => failed_prefix(files, k).push(k as usize),
        }
    }
}

/// The positions of the files that are no image, in order.
pub open spec fn failed_frames(files: Seq<Seq<u8>>) -> Seq<usize> {
    failed_prefix(files, files.len())
}

/// Decodes the frame files of an action: the images of those that decode, in
/// order, and the positions of those that do not, in order.
pub fn decode_frames_reporting(files: &Vec<Vec<u8>>) -> (r: (Vec<(u32, u32, Vec<u8>)>, Vec<usize>))
    ensures
        images_view(r.0@) == decoded_frames(file_bytes(files@)),
        r.1@ == failed_frames(file_bytes(files@)),
{
    let ghost fb = file_bytes(files@);
    let mut images: Vec<(u32, u32, Vec<u8>)> = Vec::new();
    let mut failed: Vec<usize> = Vec::new();
    let mut i: usize = 0;
    while i < files.len()
        invariant
            i <= files.len(),
            fb == file_bytes(files@),
            images_view(images@) == decoded_prefix(fb, i as nat),
            failed@ == failed_prefix(fb, i as nat),
        decreases files.len() - i,
    {
        let bytes = files[i].as_slice();
        assert(bytes@ == fb[i as int]);
        match decode_rgba(bytes) {
            Some(image) => {
                let ghost before = images@;
                images.push(image);
                assert(images_view(images@) =~= images_view(before).push(image_view(image)));
            },
            None => {
                failed.push(i);
            },
        }
        i = i + 1;
    }
    (images, failed)
}

} // verus!
