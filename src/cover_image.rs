use vstd::prelude::*;

verus! {

#[verifier::external_type_specification]
#[verifier::external_body]
pub struct ExDynamicImage(image::DynamicImage);

#[verifier::external_type_specification]
#[verifier::external_body]
pub struct ExImageError(image::ImageError);

/// Relies on `image::load_from_memory` (format guessed from the bytes) and on
/// `DynamicImage::width` / `height`. Nothing is claimed of the outcome:
/// decoding hooks registered at run time can change it.
#[verifier::external_body]
fn decode_image(bytes: &[u8]) -> (r: Result<(image::DynamicImage, u32, u32), image::ImageError>) {
    let img = image::load_from_memory(bytes)?;
    let (width, height) = (img.width(), img.height());
    Ok((img, width, height))
}

/// The largest encoded cover image accepted, in bytes.
pub const MAX_SIZE_IN_BYTES: usize = 512000;

/// Whether width / height is exactly 1 or exactly 2.
pub open spec fn valid_ratio(width: u32, height: u32) -> bool {
    height > 0 && (width == height || width == 2 * height)
}

#[derive(Debug)]
pub enum CoverImageParsingError {
    TooBig { size: usize },
    BadAspectRatio { width: u32, height: u32 },
    BadImageData(image::ImageError),
}

/// A decoded cover image of at most 500 KiB whose aspect ratio is 1:1 or 2:1.
pub struct CoverImage {
    decoded: image::DynamicImage,
    width: u32,
    height: u32,
}

impl CoverImage {
    pub closed spec fn spec_decoded(&self) -> image::DynamicImage {
        self.decoded
    }

    pub closed spec fn spec_width(&self) -> u32 {
        self.width
    }

    pub closed spec fn spec_height(&self) -> u32 {
        self.height
    }

    #[verifier::type_invariant]
    closed spec fn inv(&self) -> bool {
        valid_ratio(self.width, self.height)
    }

    /// Whether the ratio width / height is one of the allowed ratios, 1 and 2.
    pub fn is_valid_ratio(width: u32, height: u32) -> (r: bool)
        ensures
            r == valid_ratio(width, height),
    {
        height > 0 && (width == height || width as u64 == 2 * (height as u64))
    }

    /// Checks a decoded image, given with its width and height, or passes a
    /// decoding error on.
    pub fn from_decoded(decoded: Result<(image::DynamicImage, u32, u32), image::ImageError>) -> (r:
        Result<CoverImage, CoverImageParsingError>)
        ensures
            decoded matches Err(e) ==> (r matches Err(CoverImageParsingError::BadImageData(e2))
                && e2 == e),
            decoded matches Ok((img, w, h)) ==> {
                &&& valid_ratio(w, h) ==> (r is Ok && r->Ok_0.spec_width() == w
                    && r->Ok_0.spec_height() == h && r->Ok_0.spec_decoded() == img)
                &&& !valid_ratio(w, h) ==> r == Err::<CoverImage, CoverImageParsingError>(
                    CoverImageParsingError::BadAspectRatio { width: w, height: h },
                )
            },
    {
        match decoded {
            Err(e) => Err(CoverImageParsingError::BadImageData(e)),
            Ok((img, width, height)) => {
                if !CoverImage::is_valid_ratio(width, height) {
                    return Err(CoverImageParsingError::BadAspectRatio { width, height });
                }
                Ok(CoverImage { decoded: img, width, height })
            },
        }
    }

    /// Checks the size of the encoded bytes, decodes them, and checks the
    /// aspect ratio of the decoded image.
    pub fn try_from(value: &[u8]) -> (r: Result<CoverImage, CoverImageParsingError>)
        ensures
            value@.len() > MAX_SIZE_IN_BYTES <==> (r matches Err(
                CoverImageParsingError::TooBig { size },
            ) && size == value@.len()),
            r matches Err(CoverImageParsingError::TooBig { .. }) ==> value@.len() > MAX_SIZE_IN_BYTES,
            r is Ok ==> value@.len() <= MAX_SIZE_IN_BYTES && valid_ratio(
                r->Ok_0.spec_width(),
                r->Ok_0.spec_height(),
            ),
            r matches Err(CoverImageParsingError::BadAspectRatio { width, height }) ==> (
            value@.len() <= MAX_SIZE_IN_BYTES && !valid_ratio(width, height)),
            r matches Err(CoverImageParsingError::BadImageData(_)) ==> value@.len()
                <= MAX_SIZE_IN_BYTES,
    {
        let data_size = value.len();
        if data_size > MAX_SIZE_IN_BYTES {
            return Err(CoverImageParsingError::TooBig { size: data_size });
        }
        CoverImage::from_decoded(decode_image(value))
    }

    pub fn width(&self) -> (r: u32)
        ensures
            r == self.spec_width(),
    {
        self.width
    }

    pub fn height(&self) -> (r: u32)
        ensures
            r == self.spec_height(),
            valid_ratio(self.spec_width(), r),
    {
        proof {
            use_type_invariant(self);
        }
        self.height
    }

    /// The decoded image.
    pub fn decoded(&self) -> (r: &image::DynamicImage)
        ensures
            *r == self.spec_decoded(),
    {
        &self.decoded
    }
}

} // verus!
