//! Key image queries to a fog ledger server and what its answers mean.

use vstd::prelude::*;

verus! {

/// The index of a block in the ledger.
pub type BlockIndex = u64;

/// The result code of a key image that was spent.
pub const KEY_IMAGE_SPENT: u32 = 1;

/// The result code of a key image that was not spent.
pub const KEY_IMAGE_NOT_SPENT: u32 = 2;

/// The result code of a query that the server could not answer.
pub const KEY_IMAGE_ERROR: u32 = 3;

/// What marks a spent output.
#[derive(Clone, Copy, Debug, PartialEq, Eq)]
pub struct KeyImage {
    pub bytes: [u8; 32],
}

/// The question whether a key image appeared at or after a block.
#[derive(Clone, Copy, Debug, PartialEq, Eq)]
pub struct KeyImageQuery {
    pub key_image: KeyImage,
    pub start_block: u64,
}

/// A request that asks about several key images at once.
#[derive(Clone, Debug, PartialEq, Eq)]
pub struct CheckKeyImagesRequest {
    pub queries: Vec<KeyImageQuery>,
}

/// The server's answer for one key image.
#[derive(Clone, Copy, Debug, PartialEq, Eq)]
pub struct KeyImageResult {
    pub key_image: KeyImage,
    /// The block in which the key image appeared, if it was spent.
    pub spent_at: BlockIndex,
    pub timestamp: u64,
    pub timestamp_result_code: u32,
    pub key_image_result_code: u32,
}

/// Why the answer for one key image tells nothing.
#[derive(Clone, Copy, Debug, PartialEq, Eq, Structural)]
pub enum KeyImageQueryError {
    /// The server failed to handle the query.
    KeyImageError,
    /// The server sent a result code that this library does not know.
    UnknownStatus(u32),
}

/// The request that asks about each of `key_images` from the first block on.
pub fn check_key_images_request(key_images: &Vec<KeyImage>) -> (request: CheckKeyImagesRequest)
    ensures
        request.queries@ == Seq::new(
            key_images@.len(),
            |i: int| KeyImageQuery { key_image: key_images@[i], start_block: 0 },
        ),
{
    let mut queries: Vec<KeyImageQuery> = Vec::new();
    let mut i: usize = 0;
    while i < key_images.len()
        invariant
            0 <= i <= key_images@.len(),
            queries@ == Seq::new(
                i as nat,
                |k: int| KeyImageQuery { key_image: key_images@[k], start_block: 0 },
            ),
        decreases key_images@.len() - i,
    {
        queries.push(KeyImageQuery { key_image: key_images[i], start_block: 0 });
        proof {
            assert(queries@ =~= Seq::new(
                (i + 1) as nat,
                |k: int| KeyImageQuery { key_image: key_images@[k], start_block: 0 },
            ));
        }
        i += 1;
    }
    proof {
        assert(queries@ =~= Seq::new(
            key_images@.len(),
            |k: int| KeyImageQuery { key_image: key_images@[k], start_block: 0 },
        ));
    }
    CheckKeyImagesRequest { queries }
}

/// Reads the status of a key image off the server's answer.
pub trait KeyImageResultExtension {
    /// What `status` returns.
    spec fn spec_status(&self) -> Result<Option<BlockIndex>, KeyImageQueryError>;

    /// `Some` with the block in which the key image appeared, `None` if it
    /// has not appeared, or why the answer tells neither.
    fn status(&self) -> (r: Result<Option<BlockIndex>, KeyImageQueryError>)
        ensures
            r == self.spec_status(),
    ;
}

impl KeyImageResultExtension for KeyImageResult {
    open spec fn spec_status(&self) -> Result<Option<BlockIndex>, KeyImageQueryError> {
        if self.key_image_result_code == KEY_IMAGE_SPENT {
            Ok(Some(self.spent_at))
        } else if self.key_image_result_code == KEY_IMAGE_NOT_SPENT {
            Ok(None)
        } else if self.key_image_result_code == KEY_IMAGE_ERROR {
            Err(KeyImageQueryError::KeyImageError)
        } else {
            Err(KeyImageQueryError::UnknownStatus(self.key_image_result_code))
        }
    }

    fn status(&self) -> (r: Result<Option<BlockIndex>, KeyImageQueryError>) {
        if self.key_image_result_code == KEY_IMAGE_SPENT {
            Ok(Some(self.spent_at))
        } else if self.key_image_result_code == KEY_IMAGE_NOT_SPENT {
            Ok(None)
        } else if self.key_image_result_code == KEY_IMAGE_ERROR {
            Err(KeyImageQueryError::KeyImageError)
        } else {
            Err(KeyImageQueryError::UnknownStatus(self.key_image_result_code))
        }
    }
}

} // verus!
