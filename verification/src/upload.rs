use vstd::prelude::*;
use crate::error::{is_validation, ApiError};
use crate::validate::{valid_platform, validate_platform};

verus! {

/// What an artifact upload has delivered so far, field by field of its
/// multipart body.
#[derive(Debug)]
pub struct UploadTracker {
    pub platform: Option<String>,
    /// The file's name and content type, once its field has started.
    pub file: Option<(String, String)>,
    pub size: u64,
    pub max_bytes: usize,
}

/// A finished upload: the platform, the file's name and content type, and
/// its size in bytes.
#[derive(Debug)]
pub struct UploadedFile {
    pub platform: String,
    pub file_name: String,
    pub content_type: String,
    pub size: u64,
}

impl UploadTracker {
    /// An upload that may hold at most `max_bytes` bytes.
    pub fn new(max_bytes: usize) -> (t: UploadTracker)
        ensures
            t.platform is None,
            t.file is None,
            t.size == 0,
            t.max_bytes == max_bytes,
    {
        UploadTracker { platform: None, file: None, size: 0, max_bytes }
    }

    /// The `platform` field; a later one replaces an earlier one.
    pub fn on_platform(&mut self, text: String)
        ensures
            final(self).platform == Some(text),
            final(self).file == old(self).file,
            final(self).size == old(self).size,
            final(self).max_bytes == old(self).max_bytes,
    {
        self.platform = Some(text);
    }

    /// The start of the `file` field, with the name and content type its part
    /// declares; only one file is accepted. A missing name reads
    /// `artifact.bin`, a missing type `application/octet-stream`.
    pub fn on_file_start(&mut self, file_name: Option<&str>, content_type: Option<&str>) -> (r: Result<(), ApiError>)
        ensures
            r is Ok <==> old(self).file is None,
            r matches Err(e) ==> is_validation(e, "Only one file field is allowed"@),
            r is Err ==> *final(self) == *old(self),
            r is Ok ==> {
                &&& final(self).file matches Some((n, t)) && n@ == (match file_name {
                    Some(f) => f@,
                    None => "artifact.bin"@,
                }) && t@ == (match content_type {
                    Some(c) => c@,
                    None => "application/octet-stream"@,
                })
                &&& final(self).platform == old(self).platform
                &&& final(self).size == old(self).size
                &&& final(self).max_bytes == old(self).max_bytes
            },
    {
        if self.file.is_some() {
            return Err(ApiError::validation("Only one file field is allowed"));
        }
        let name = match file_name {
            Some(f) => f.to_owned(),
            None => "artifact.bin".to_owned(),
        };
        let kind = match content_type {
            Some(c) => c.to_owned(),
            None => "application/octet-stream".to_owned(),
        };
        self.file = Some((name, kind));
        Ok(())
    }

    /// A chunk of `len` bytes of the file; the upload is refused once its
    /// size exceeds the maximum.
    pub fn on_chunk(&mut self, len: usize) -> (r: Result<(), ApiError>)
        requires
            old(self).size + len <= u64::MAX,
        ensures
            final(self).size == old(self).size + len,
            r is Ok <==> (final(self).size as usize) <= old(self).max_bytes,
            r matches Err(e) ==> is_validation(e, "Upload exceeds configured maximum size"@),
            final(self).platform == old(self).platform,
            final(self).file == old(self).file,
            final(self).max_bytes == old(self).max_bytes,
    {
        self.size = self.size + len as u64;
        if self.size as usize > self.max_bytes {
            return Err(ApiError::validation("Upload exceeds configured maximum size"));
        }
        Ok(())
    }

    /// The end of the body: a file is required, then a platform, which must
    /// be a valid slug.
    pub fn finish(self) -> (r: Result<UploadedFile, ApiError>)
        ensures
            self.file is None ==> (r matches Err(e) && is_validation(e, "file is required"@)),
            self.file is Some && self.platform is None ==> (r matches Err(e) && is_validation(
                e,
                "platform is required"@,
            )),
            self.file is Some && (self.platform matches Some(p) && !valid_platform(p@)) ==> (r matches Err(
                e,
            ) && is_validation(e, "platform must be a 1-64 character lowercase slug"@)),
            r is Ok <==> (self.file is Some && (self.platform matches Some(p) && valid_platform(
                p@,
            ))),
            r matches Ok(f) ==> {
                &&& Some(f.platform) == self.platform
                &&& Some((f.file_name, f.content_type)) == self.file
                &&& f.size == self.size
            },
    {
        let (file_name, content_type) = match self.file {
            Some(f) => f,
            None => return Err(ApiError::validation("file is required")),
        };
        let platform = match self.platform {
            Some(p) => p,
            None => return Err(ApiError::validation("platform is required")),
        };
        validate_platform(platform.as_str())?;
        Ok(UploadedFile { platform, file_name, content_type, size: self.size })
    }
}

} // verus!
