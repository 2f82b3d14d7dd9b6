//! Persisting generated images: the session walks the image list in order,
//! names each output file `{created}-{index}.png` under the destination
//! prefix, decodes the downloaded bytes, and stops at the first failure.
//! The downloads themselves and the filesystem writes happen outside; the
//! session decides what to fetch, what each file is called, and what a
//! failure means.

use vstd::prelude::*;

use crate::text::{
    i64_dec_chars, spec_i64_dec, spec_u64_dec, string_from_chars, u64_dec_chars,
};
use crate::types::Dalle2ImgData;
use vstd::string::StringExecFns;

verus! {

/// Why persisting stopped: the download at `index` answered with a non-2xx
/// `status`, or the bytes at `index` were not a valid image.
#[derive(Clone, Copy, Debug, PartialEq, Eq, Structural)]
pub enum PersistError {
    Http { index: usize, status: u16 },
    Decode { index: usize },
}

#[verifier::external_type_specification]
#[verifier::external_body]
pub struct ExWebPImage(webp::WebPImage);

/// Whether a byte string forms a valid still image in the lossy format.
pub uninterp spec fn webp_decodes(bytes: Seq<u8>) -> bool;

/// Relies on `webp::Decoder::decode`: the outcome depends on the input bytes
/// alone, and a decoded image comes back exactly when the bytes form a valid
/// still image.
#[verifier::external_body]
fn decode_webp(bytes: &Vec<u8>) -> (r: Option<webp::WebPImage>)
    ensures
        r is Some <==> webp_decodes(bytes@),
{
    webp::Decoder::new(bytes.as_slice()).decode()
}

/// The name of the file the image at `idx` is written to: the destination
/// prefix, the image's creation timestamp, a dash, and the zero-based index.
pub open spec fn spec_file_name(dir: Seq<char>, created: int, idx: nat) -> Seq<char> {
    dir + spec_i64_dec(created) + "-"@ + spec_u64_dec(idx) + ".png"@
}

/// Builds the output file name for one image.
pub fn file_name(dir: &str, created: i64, idx: u64) -> (r: String)
    ensures
        r@ == spec_file_name(dir@, created as int, idx as nat),
{
    let mut out = String::from_str(dir);
    let stamp = string_from_chars(&i64_dec_chars(created));
    out.append(stamp.as_str());
    out.append("-");
    let position = string_from_chars(&u64_dec_chars(idx));
    out.append(position.as_str());
    out.append(".png");
    proof {
        assert(out@ =~= spec_file_name(dir@, created as int, idx as nat));
    }
    out
}

/// One run of persisting a list of images. `next` is the index of the image
/// to fetch next; `released` records, in call order, the names of the files
/// already handed out for writing — one per image fetched and decoded so far.
pub struct PersistSession {
    pub imgs: Vec<Dalle2ImgData>,
    pub dir: String,
    pub next: usize,
    pub released: Ghost<Seq<Seq<char>>>,
}

impl PersistSession {
    /// The names the first `n` images are written under, in order.
    pub open spec fn spec_names(self, n: nat) -> Seq<Seq<char>> {
        Seq::new(n, |i: int| spec_file_name(self.dir@, self.imgs@[i].created as int, i as nat))
    }

    /// The session walks the list front to back, and the released names are
    /// exactly those of the images already fetched and decoded.
    pub open spec fn wf(self) -> bool {
        self.next <= self.imgs.len() && self.released@ == self.spec_names(self.next as nat)
    }

    /// Starts a run over the given images, writing under the given prefix.
    pub fn new(imgs: Vec<Dalle2ImgData>, dir: String) -> (s: Self)
        ensures
            s.wf(),
            s.imgs == imgs,
            s.dir == dir,
            s.next == 0,
            s.released@.len() == 0,
    {
        let s = PersistSession { imgs, dir, next: 0, released: Ghost(Seq::empty()) };
        proof {
            assert(s.released@ =~= s.spec_names(0));
        }
        s
    }

    /// Whether every image has been fetched, decoded and released.
    pub fn done(&self) -> (r: bool)
        ensures
            r == (self.next == self.imgs.len()),
    {
        self.next == self.imgs.len()
    }

    /// The URL to download next.
    pub fn current_url(&self) -> (r: &String)
        requires
            self.next < self.imgs.len(),
        ensures
            r@ == self.imgs@[self.next as int].generation.image_path@,
    {
        &self.imgs[self.next].generation.image_path
    }

    /// Takes the downloaded bytes of the current image. When they decode,
    /// the session releases the image's file name — `{created}-{index}.png`
    /// under the prefix — together with the decoded picture, and moves to
    /// the next image; when they do not, it stops unchanged with an error
    /// naming the index.
    pub fn on_downloaded(&mut self, bytes: &Vec<u8>) -> (r: Result<
        (String, webp::WebPImage),
        PersistError,
    >)
        requires
            old(self).wf(),
            old(self).next < old(self).imgs.len(),
        ensures
            final(self).wf(),
            r is Ok <==> webp_decodes(bytes@),
            r matches Ok(p) ==> {
                &&& final(self).imgs == old(self).imgs
                &&& final(self).dir == old(self).dir
                &&& final(self).next == old(self).next + 1
                &&& p.0@ == spec_file_name(
                    old(self).dir@,
                    old(self).imgs@[old(self).next as int].created as int,
                    old(self).next as nat,
                )
                &&& final(self).released@ == old(self).released@.push(p.0@)
            },
            r matches Err(e) ==> *final(self) == *old(self) && e == (PersistError::Decode {
                index: old(self).next,
            }),
    {
        match decode_webp(bytes) {
            None => Err(PersistError::Decode { index: self.next }),
            Some(picture) => {
                let idx = self.next;
                let created = self.imgs[idx].created;
                let name = file_name(self.dir.as_str(), created, idx as u64);
                self.released = Ghost(self.released@.push(name@));
                self.next = idx + 1;
                proof {
                    assert(self.released@ =~= self.spec_names(self.next as nat));
                }
                Ok((name, picture))
            },
        }
    }

    /// A non-2xx answer for the current download is fatal for the whole run:
    /// the error names the failing index and the status, and the files
    /// already released stay as they are.
    pub fn on_http_error(&self, status: u16) -> (e: PersistError)
        ensures
            e == (PersistError::Http { index: self.next, status }),
    {
        PersistError::Http { index: self.next, status }
    }
}

/// A finished run has released exactly one file name per image — the i-th
/// called `{created_i}-{i}.png` under the prefix — in call order.
pub proof fn lemma_run_releases_all(s: PersistSession)
    requires
        s.wf(),
        s.next == s.imgs.len(),
    ensures
        s.released@.len() == s.imgs@.len(),
        forall|i: int|
            0 <= i < s.imgs@.len() ==> #[trigger] s.released@[i] == spec_file_name(
                s.dir@,
                s.imgs@[i].created as int,
                i as nat,
            ),
{
}

/// When the download at index `k` fails, the files already released are
/// exactly those of the first `k` images, in order: earlier writes stand,
/// later images get none.
pub proof fn lemma_partial_run_releases_prefix(s: PersistSession)
    requires
        s.wf(),
    ensures
        s.released@.len() == s.next,
        forall|i: int|
            0 <= i < s.next ==> #[trigger] s.released@[i] == spec_file_name(
                s.dir@,
                s.imgs@[i].created as int,
                i as nat,
            ),
{
}

} // verus!
