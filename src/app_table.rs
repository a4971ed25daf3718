//! The embedded application table.
//!
//! The blob is a sequence of little-endian 64-bit words: the number of
//! applications `n`, then `n` pairs (offset, length) that locate each image
//! within the blob, then the images themselves.
use vstd::prelude::*;

use crate::config::APP_SIZE_LIMIT;

verus! {

/// Size in bytes of one word of the table header.
pub const WORD_BYTES: usize = 8;

/// The little-endian 64-bit word stored at `b[i..i + 8]`.
pub open spec fn le_word(b: Seq<u8>, i: int) -> int {
    b[i] as int
        + b[i + 1] as int * 0x100
        + b[i + 2] as int * 0x1_0000
        + b[i + 3] as int * 0x100_0000
        + b[i + 4] as int * 0x1_0000_0000
        + b[i + 5] as int * 0x100_0000_0000
        + b[i + 6] as int * 0x1_0000_0000_0000
        + b[i + 7] as int * 0x100_0000_0000_0000
}

/// The number of applications that the blob declares.
pub open spec fn declared_count(b: Seq<u8>) -> int {
    le_word(b, 0)
}

/// The header (count and every (offset, length) pair) lies within the blob.
pub open spec fn header_fits(b: Seq<u8>) -> bool {
    b.len() >= 8 && 8 + 16 * declared_count(b) <= b.len()
}

/// Offset of application `k`'s image within the blob.
pub open spec fn app_offset(b: Seq<u8>, k: int) -> int {
    le_word(b, 8 + 16 * k)
}

/// Length of application `k`'s image.
pub open spec fn app_length(b: Seq<u8>, k: int) -> int {
    le_word(b, 16 + 16 * k)
}

/// Application `k`'s image lies within the blob.
pub open spec fn app_in_bounds(b: Seq<u8>, k: int) -> bool {
    app_offset(b, k) + app_length(b, k) <= b.len()
}

/// Application `k`'s image fits the execution window.
pub open spec fn app_fits_window(b: Seq<u8>, k: int) -> bool {
    app_length(b, k) <= APP_SIZE_LIMIT
}

/// Application `k` passes both checks.
pub open spec fn app_ok(b: Seq<u8>, k: int) -> bool {
    app_in_bounds(b, k) && app_fits_window(b, k)
}

/// A well-formed blob: at least one application, a complete header, and
/// every image inside the blob and no larger than the execution window.
pub open spec fn table_ok(b: Seq<u8>) -> bool {
    &&& header_fits(b)
    &&& declared_count(b) >= 1
    &&& forall|k: int| 0 <= k < declared_count(b) ==> #[trigger] app_ok(b, k)
}

/// The bytes of application `k`.
pub open spec fn app_image(b: Seq<u8>, k: int) -> Seq<u8> {
    b.subrange(app_offset(b, k), app_offset(b, k) + app_length(b, k))
}

/// The images of a well-formed blob, in table order.
pub open spec fn table_images(b: Seq<u8>) -> Seq<Seq<u8>> {
    Seq::new(declared_count(b) as nat, |k: int| app_image(b, k))
}

/// The first application whose image is out of bounds or too large.
pub open spec fn first_bad_app(b: Seq<u8>) -> int {
    choose|k: int|
        0 <= k < declared_count(b) && !app_ok(b, k) && forall|j: int|
            0 <= j < k ==> #[trigger] app_ok(b, j)
}

/// The error with which a malformed blob is refused: the header is checked
/// first, then the applications in order.
pub open spec fn init_error(b: Seq<u8>) -> InitError {
    if b.len() < 8 {
        InitError::Truncated
    } else if declared_count(b) == 0 {
        InitError::Empty
    } else if !header_fits(b) {
        InitError::Truncated
    } else if !app_in_bounds(b, first_bad_app(b)) {
        InitError::AppOutOfBounds(first_bad_app(b) as usize)
    } else {
        InitError::AppTooLarge(first_bad_app(b) as usize)
    }
}

/// Why a blob is refused at initialisation.
#[derive(Clone, Copy, Debug, PartialEq, Eq, Structural)]
pub enum InitError {
    /// The blob ends inside its header.
    Truncated,
    /// The blob declares no application.
    Empty,
    /// The image of this application reaches past the end of the blob.
    AppOutOfBounds(usize),
    /// The image of this application is larger than the execution window.
    AppTooLarge(usize),
}

/// Where one image lies within the blob.
#[derive(Clone, Copy, Debug, PartialEq, Eq, Structural)]
pub struct AppDescriptor {
    pub offset: usize,
    pub len: usize,
}

/// A validated application table, with the blob that holds the images.
pub struct AppTable {
    blob: Vec<u8>,
    apps: Vec<AppDescriptor>,
}

/// The first failing application is the one that the checks in order stop at.
proof fn lemma_first_bad_app(b: Seq<u8>, k: int)
    requires
        0 <= k < declared_count(b),
        !app_ok(b, k),
        forall|j: int| 0 <= j < k ==> #[trigger] app_ok(b, j),
    ensures
        first_bad_app(b) == k,
{
    let c = first_bad_app(b);
    assert(0 <= c < declared_count(b) && !app_ok(b, c) && forall|j: int|
        0 <= j < c ==> #[trigger] app_ok(b, j));
    if c < k {
        assert(app_ok(b, c));
    } else if k < c {
        assert(app_ok(b, k));
    }
}

/// Reads the little-endian word at `b[i..i + 8]`.
fn read_word(b: &Vec<u8>, i: usize) -> (r: u64)
    requires
        i + 8 <= b@.len(),
    ensures
        r as int == le_word(b@, i as int),
{
    let blen: usize = b.len();
    assert(i + 8 <= blen);
    let b0: u64 = b[i] as u64;
    let b1: u64 = b[i + 1] as u64;
    let b2: u64 = b[i + 2] as u64;
    let b3: u64 = b[i + 3] as u64;
    let b4: u64 = b[i + 4] as u64;
    let b5: u64 = b[i + 5] as u64;
    let b6: u64 = b[i + 6] as u64;
    let b7: u64 = b[i + 7] as u64;
    b0 + b1 * 0x100 + b2 * 0x1_0000 + b3 * 0x100_0000 + b4 * 0x1_0000_0000 + b5 * 0x100_0000_0000
        + b6 * 0x1_0000_0000_0000 + b7 * 0x100_0000_0000_0000
}

impl AppTable {
    /// The images, in table order.
    pub closed spec fn view(&self) -> Seq<Seq<u8>> {
        Seq::new(
            self.apps@.len(),
            |k: int| self.blob@.subrange(
                self.apps@[k].offset as int,
                self.apps@[k].offset + self.apps@[k].len,
            ),
        )
    }

    pub closed spec fn wf(&self) -> bool {
        &&& self.apps@.len() >= 1
        &&& forall|k: int|
            0 <= k < self.apps@.len() ==> {
                &&& #[trigger] self.apps@[k].offset + self.apps@[k].len <= self.blob@.len()
                &&& self.apps@[k].len <= APP_SIZE_LIMIT
            }
    }

    /// Validates the blob and indexes its applications. Every failure is
    /// fatal to the kernel: the error says which check refused the blob,
    /// taking the header first and then the applications in order.
    pub fn parse(blob: Vec<u8>) -> (r: Result<AppTable, InitError>)
        ensures
            r is Ok <==> table_ok(blob@),
            match r {
                Ok(t) => t.wf() && t.view() == table_images(blob@),
                Err(e) => e == init_error(blob@),
            },
    {
        if blob.len() < WORD_BYTES {
            return Err(InitError::Truncated);
        }
        let n: u64 = read_word(&blob, 0);
        if n == 0 {
            return Err(InitError::Empty);
        }
        let room: usize = (blob.len() - WORD_BYTES) / 16;
        if n > room as u64 {
            return Err(InitError::Truncated);
        }
        assert(8 + 16 * n <= blob@.len());
        let n: usize = n as usize;
        let blen: usize = blob.len();
        let mut apps: Vec<AppDescriptor> = Vec::new();
        let mut k: usize = 0;
        while k < n
            invariant
                n == declared_count(blob@),
                header_fits(blob@),
                blen == blob@.len(),
                k <= n,
                apps@.len() == k,
                forall|j: int| 0 <= j < k ==> #[trigger] app_ok(blob@, j),
                forall|j: int|
                    0 <= j < k ==> {
                        &&& (#[trigger] apps@[j]).offset == app_offset(blob@, j)
                        &&& apps@[j].len == app_length(blob@, j)
                        &&& apps@[j].offset + apps@[j].len <= blen
                        &&& apps@[j].len <= APP_SIZE_LIMIT
                    },
            decreases n - k,
        {
            let off: u64 = read_word(&blob, 8 + 16 * k);
            let len: u64 = read_word(&blob, 16 + 16 * k);
            if off > blen as u64 || len > blen as u64 - off || len > APP_SIZE_LIMIT as u64 {
                proof {
                    lemma_first_bad_app(blob@, k as int);
                }
            }
            if off > blen as u64 || len > blen as u64 - off {
                return Err(InitError::AppOutOfBounds(k));
            }
            if len > APP_SIZE_LIMIT as u64 {
                return Err(InitError::AppTooLarge(k));
            }
            assert(app_ok(blob@, k as int));
            apps.push(AppDescriptor { offset: off as usize, len: len as usize });
            k = k + 1;
        }
        let t = AppTable { blob, apps };
        assert(t.view() =~= table_images(t.blob@));
        Ok(t)
    }

    /// The number of applications.
    pub fn len(&self) -> (r: usize)
        ensures
            r == self.view().len(),
    {
        self.apps.len()
    }

    /// The size of application `k`'s image.
    pub fn app_len(&self, k: usize) -> (r: usize)
        requires
            self.wf(),
            k < self.view().len(),
        ensures
            r == self.view()[k as int].len(),
            r <= APP_SIZE_LIMIT,
    {
        self.apps[k].len
    }

    /// Byte `j` of application `k`'s image.
    pub fn app_byte(&self, k: usize, j: usize) -> (r: u8)
        requires
            self.wf(),
            k < self.view().len(),
            j < self.view()[k as int].len(),
        ensures
            r == self.view()[k as int][j as int],
    {
        assert(self.apps@[k as int].offset + self.apps@[k as int].len <= self.blob@.len());
        assert(self.view()[k as int].len() == self.apps@[k as int].len);
        let blob_len: usize = self.blob.len();
        let at: usize = self.apps[k].offset + j;
        assert(at < blob_len);
        self.blob[at]
    }
}

} // verus!
