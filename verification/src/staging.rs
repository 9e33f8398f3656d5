//! Staged transfers: the byte ceiling of each kind of upload, which upload
//! and download requests are admitted, the receipt of a received upload
//! with its SHA-256 digest, and the staging area that keeps received
//! uploads until a request redeems them, once.

use vstd::prelude::*;
use crate::api::{ApiError, BAD_REQUEST, CONFLICT, NOT_FOUND, error_response, invalid_body, is_error};
use crate::clock::{iso8601_from_unix_secs, timestamp_text};
use crate::text::{chars_of, chars_eq, concat_str, decimal, trim, trim_vec};

verus! {

/// The byte ceiling of world, thumbnail and modpack uploads (10 GiB).
pub const MAX_STAGED_UPLOAD_BYTES: u64 = 10737418240;

/// The byte ceiling of a local add-on file (512 MiB).
pub const MAX_LOCAL_ADDON_UPLOAD_BYTES: u64 = 536870912;

/// How long a staged transfer stays redeemable, in seconds.
pub const STAGING_TTL_SECONDS: u64 = 1800;

/// What a staged upload is for.
#[derive(Debug, Clone, Copy, PartialEq, Eq, Structural)]
pub enum StagedUploadPurpose {
    WorldImport,
    ActiveWorldReplace,
    WorldThumbnail,
    ModpackArchive,
    AddonLocalFile,
    CurseforgeManualFile,
}

/// A file that a modpack import still waits for, to be uploaded by hand.
#[derive(Debug, Clone, PartialEq, Eq)]
pub struct PendingManualFile {
    pub file_id: u64,
    pub expected_byte_size: u64,
}

/// A modpack import that waits for files uploaded by hand.
#[derive(Debug, Clone, PartialEq, Eq)]
pub struct PendingImport {
    pub operation_id: String,
    pub remaining_manual_files: Vec<PendingManualFile>,
}

/// The index of the first pending import with this operation id.
pub open spec fn import_index(pending: Seq<PendingImport>, id: Seq<char>, from: int) -> Option<int>
    decreases pending.len() - from,
{
    if from < 0 || from >= pending.len() {
        None
    } else if pending[from].operation_id@ == id {
        Some(from)
    } else {
        import_index(pending, id, from + 1)
    }
}

/// The index of the first manual file whose id's decimal text is `id`.
pub open spec fn manual_file_index(files: Seq<PendingManualFile>, id: Seq<char>, from: int) -> Option<
    int,
>
    decreases files.len() - from,
{
    if from < 0 || from >= files.len() {
        None
    } else if decimal(files[from].file_id as nat) == id {
        Some(from)
    } else {
        manual_file_index(files, id, from + 1)
    }
}

pub(crate) proof fn lemma_import_index(pending: Seq<PendingImport>, id: Seq<char>, from: int)
    ensures
        import_index(pending, id, from) matches Some(k) ==> from <= k < pending.len()
            && pending[k].operation_id@ == id,
        0 <= from && import_index(pending, id, from) is None ==> forall|i: int|
            from <= i < pending.len() ==> pending[i].operation_id@ != id,
    decreases pending.len() - from,
{
    if 0 <= from < pending.len() && pending[from].operation_id@ != id {
        lemma_import_index(pending, id, from + 1);
    }
}

pub(crate) proof fn lemma_manual_file_index(files: Seq<PendingManualFile>, id: Seq<char>, from: int)
    ensures
        manual_file_index(files, id, from) matches Some(k) ==> from <= k < files.len(),
    decreases files.len() - from,
{
    if 0 <= from < files.len() && decimal(files[from].file_id as nat) != id {
        lemma_manual_file_index(files, id, from + 1);
    }
}

/// The byte ceiling of an upload for `purpose`: a manual modpack file must
/// name a pending import and one of its remaining files, whose expected
/// size is the ceiling.
pub open spec fn ceiling_of(
    purpose: StagedUploadPurpose,
    operation_id: Option<Seq<char>>,
    file_id: Option<Seq<char>>,
    pending: Seq<PendingImport>,
) -> Result<int, (u16, Seq<char>, Seq<char>)> {
    match purpose {
        StagedUploadPurpose::AddonLocalFile => Ok(MAX_LOCAL_ADDON_UPLOAD_BYTES as int),
        StagedUploadPurpose::CurseforgeManualFile => {
            let op_ok = operation_id matches Some(o) && trim(o).len() > 0;
            let file_ok = file_id matches Some(f) && trim(f).len() > 0;
            if !op_ok {
                Err((BAD_REQUEST, "missing_operation_id"@, "operationId is required."@))
            } else if !file_ok {
                Err((BAD_REQUEST, "missing_file_id"@, "fileId is required."@))
            } else {
                match import_index(pending, operation_id.unwrap(), 0) {
                    None => Err(
                        (
                            NOT_FOUND,
                            "not_found"@,
                            "No pending modpack import matched that operation."@,
                        ),
                    ),
                    Some(i) => match manual_file_index(
                        pending[i].remaining_manual_files@,
                        file_id.unwrap(),
                        0,
                    ) {
                        None => Err(
                            (NOT_FOUND, "not_found"@, "No pending manual file matched that fileId."@),
                        ),
                        Some(j) => Ok(
                            pending[i].remaining_manual_files@[j].expected_byte_size as int,
                        ),
                    },
                }
            }
        },
        _ => Ok(MAX_STAGED_UPLOAD_BYTES as int),
    }
}

pub(crate) fn find_import(pending: &Vec<PendingImport>, id: &str) -> (res: Option<usize>)
    ensures
        match res {
            Some(k) => import_index(pending@, id@, 0) == Some(k as int),
            None => import_index(pending@, id@, 0) is None,
        },
{
    let wanted = chars_of(id);
    let mut i: usize = 0;
    while i < pending.len()
        invariant
            i <= pending.len(),
            wanted@ == id@,
            import_index(pending@, id@, 0) == import_index(pending@, id@, i as int),
        decreases pending.len() - i,
    {
        let name = chars_of(pending[i].operation_id.as_str());
        if chars_eq(name.as_slice(), wanted.as_slice()) {
            return Some(i);
        }
        i += 1;
    }
    None
}

pub(crate) fn find_manual_file(files: &Vec<PendingManualFile>, id: &str) -> (res: Option<usize>)
    ensures
        match res {
            Some(k) => manual_file_index(files@, id@, 0) == Some(k as int),
            None => manual_file_index(files@, id@, 0) is None,
        },
{
    let wanted = chars_of(id);
    let mut i: usize = 0;
    while i < files.len()
        invariant
            i <= files.len(),
            wanted@ == id@,
            manual_file_index(files@, id@, 0) == manual_file_index(files@, id@, i as int),
        decreases files.len() - i,
    {
        let text = crate::text::decimal_exec(files[i].file_id);
        if chars_eq(text.as_slice(), wanted.as_slice()) {
            return Some(i);
        }
        i += 1;
    }
    None
}

/// The byte ceiling of a new staged upload for `purpose`.
pub fn upload_ceiling(
    purpose: StagedUploadPurpose,
    operation_id: Option<&str>,
    file_id: Option<&str>,
    pending: &Vec<PendingImport>,
) -> (res: Result<u64, ApiError>)
    ensures
        match ceiling_of(
            purpose,
            match operation_id {
                Some(o) => Some(o@),
                None => None,
            },
            match file_id {
                Some(f) => Some(f@),
                None => None,
            },
            pending@,
        ) {
            Ok(n) => res == Ok::<u64, ApiError>(n as u64),
            Err((status, code, message)) => res matches Err(e) && is_error(e, status, code, message),
        },
{
    match purpose {
        StagedUploadPurpose::AddonLocalFile => Ok(MAX_LOCAL_ADDON_UPLOAD_BYTES),
        StagedUploadPurpose::CurseforgeManualFile => {
            let op = match operation_id {
                Some(o) => if trim_vec(chars_of(o).as_slice()).len() > 0 {
                    o
                } else {
                    return Err(invalid_body("missing_operation_id", "operationId is required."));
                },
                None => return Err(invalid_body("missing_operation_id", "operationId is required.")),
            };
            let file = match file_id {
                Some(f) => if trim_vec(chars_of(f).as_slice()).len() > 0 {
                    f
                } else {
                    return Err(invalid_body("missing_file_id", "fileId is required."));
                },
                None => return Err(invalid_body("missing_file_id", "fileId is required.")),
            };
            proof {
                lemma_import_index(pending@, op@, 0);
            }
            let i = match find_import(pending, op) {
                Some(i) => i,
                None => return Err(
                    error_response(
                        NOT_FOUND,
                        "not_found",
                        "No pending modpack import matched that operation.",
                    ),
                ),
            };
            proof {
                lemma_manual_file_index(pending@[i as int].remaining_manual_files@, file@, 0);
                assert(operation_id.unwrap()@ == op@);
                assert(file_id.unwrap()@ == file@);
                assert(import_index(pending@, op@, 0) == Some(i as int));
            }
            let j = match find_manual_file(&pending[i].remaining_manual_files, file) {
                Some(j) => j,
                None => return Err(
                    error_response(NOT_FOUND, "not_found", "No pending manual file matched that fileId."),
                ),
            };
            Ok(pending[i].remaining_manual_files[j].expected_byte_size)
        },
        _ => Ok(MAX_STAGED_UPLOAD_BYTES),
    }
}

/// The shape of a random (version 4) UUID in its hyphenated lower-case
/// text.
pub open spec fn is_transfer_id(s: Seq<char>) -> bool {
    &&& s.len() == 36
    &&& s[8] == '-' && s[13] == '-' && s[18] == '-' && s[23] == '-'
    &&& forall|i: int|
        0 <= i < 36 && i != 8 && i != 13 && i != 18 && i != 23 ==> ('0' <= #[trigger] s[i] <= '9' || 'a'
            <= s[i] <= 'f')
    &&& s[14] == '4'
    &&& s[19] == '8' || s[19] == '9' || s[19] == 'a' || s[19] == 'b'
}

/// A fresh random id for a staged transfer (`uuid::Uuid::new_v4`, in its
/// hyphenated lower-case text).
///
/// The id is random; what every outcome shares is its shape: 36
/// characters, hyphens at 8, 13, 18 and 23 and lower-case hexadecimal
/// digits elsewhere, the version digit `4` at 14 and the variant digit
/// (`8`, `9`, `a` or `b`) at 19.
#[verifier::external_body]
pub(crate) fn new_transfer_id() -> (res: String)
    ensures
        res@.len() == 36,
        res@[8] == '-' && res@[13] == '-' && res@[18] == '-' && res@[23] == '-',
        forall|i: int|
            0 <= i < 36 && i != 8 && i != 13 && i != 18 && i != 23 ==> ('0' <= #[trigger] res@[i] <= '9'
                || 'a' <= res@[i] <= 'f'),
        res@[14] == '4',
        res@[19] == '8' || res@[19] == '9' || res@[19] == 'a' || res@[19] == 'b',
{
    uuid::Uuid::new_v4().to_string()
}

/// The answer that opens a staged upload.
#[derive(Debug, Clone, PartialEq, Eq)]
pub struct StagedUploadBegin {
    pub staged_upload_id: String,
    pub upload_path: String,
    pub expires_at: String,
    pub max_bytes: i64,
}

/// The answer that opens the staged upload `id` at `now` with a ceiling of
/// `max_bytes`: its upload route, when it expires, and its ceiling.
pub fn staged_upload_begin(id: String, now: u64, max_bytes: u64) -> (res: StagedUploadBegin)
    requires
        now <= u64::MAX - STAGING_TTL_SECONDS,
    ensures
        res.staged_upload_id == id,
        res.upload_path@ == "/v1/staged-uploads/"@ + id@,
        res.expires_at@ == timestamp_text((now + STAGING_TTL_SECONDS) as nat),
        res.max_bytes == if max_bytes <= i64::MAX {
            max_bytes as i64
        } else {
            i64::MAX
        },
{
    let upload_path = concat_str(concat_str(String::new(), "/v1/staged-uploads/"), id.as_str());
    StagedUploadBegin {
        staged_upload_id: id,
        upload_path,
        expires_at: iso8601_from_unix_secs(now + STAGING_TTL_SECONDS),
        max_bytes: if max_bytes <= i64::MAX as u64 {
            max_bytes as i64
        } else {
            i64::MAX
        },
    }
}

/// Opens a staged upload at `now`: a fresh random id, its route, expiry
/// and ceiling.
pub fn begin_staged_upload(now: u64, max_bytes: u64) -> (res: StagedUploadBegin)
    requires
        now <= u64::MAX - STAGING_TTL_SECONDS,
    ensures
        is_transfer_id(res.staged_upload_id@),
        res.upload_path@ == "/v1/staged-uploads/"@ + res.staged_upload_id@,
        res.expires_at@ == timestamp_text((now + STAGING_TTL_SECONDS) as nat),
        res.max_bytes == if max_bytes <= i64::MAX {
            max_bytes as i64
        } else {
            i64::MAX
        },
{
    staged_upload_begin(new_transfer_id(), now, max_bytes)
}

/// Admits the bytes of a staged upload: it must be known, unexpired at
/// `now`, and the body within its ceiling.
pub fn admit_upload_bytes(known: bool, now: u64, expires_at: u64, body_len: usize, max_bytes: u64) -> (res:
    Result<(), ApiError>)
    ensures
        !known ==> (res matches Err(e) && is_error(
            e,
            NOT_FOUND,
            "not_found"@,
            "Unknown or already-redeemed staged upload."@,
        )),
        known && now > expires_at ==> (res matches Err(e) && is_error(
            e,
            CONFLICT,
            "staged_upload_expired"@,
            "This staged upload has expired."@,
        )),
        known && now <= expires_at && body_len > max_bytes ==> (res matches Err(e) && is_error(
            e,
            CONFLICT,
            "max_bytes_exceeded"@,
            "Upload exceeds the staged upload's byte ceiling."@,
        )),
        known && now <= expires_at && body_len <= max_bytes ==> res is Ok,
{
    if !known {
        return Err(
            error_response(NOT_FOUND, "not_found", "Unknown or already-redeemed staged upload."),
        );
    }
    if now > expires_at {
        return Err(
            error_response(CONFLICT, "staged_upload_expired", "This staged upload has expired."),
        );
    }
    if body_len as u64 > max_bytes {
        return Err(
            error_response(
                CONFLICT,
                "max_bytes_exceeded",
                "Upload exceeds the staged upload's byte ceiling.",
            ),
        );
    }
    Ok(())
}

/// Admits the redemption of a staged download: it must be known and
/// unexpired at `now`.
pub fn admit_download(known: bool, now: u64, expires_at: u64) -> (res: Result<(), ApiError>)
    ensures
        !known ==> (res matches Err(e) && is_error(
            e,
            NOT_FOUND,
            "not_found"@,
            "Unknown staged download."@,
        )),
        known && now > expires_at ==> (res matches Err(e) && is_error(
            e,
            CONFLICT,
            "staged_download_expired"@,
            "This staged download has expired."@,
        )),
        known && now <= expires_at ==> res is Ok,
{
    if !known {
        return Err(error_response(NOT_FOUND, "not_found", "Unknown staged download."));
    }
    if now > expires_at {
        return Err(
            error_response(CONFLICT, "staged_download_expired", "This staged download has expired."),
        );
    }
    Ok(())
}

/// The SHA-256 digest of a byte string, as `sha2::Sha256` computes it.
pub uninterp spec fn sha256_of(bytes: Seq<u8>) -> Seq<u8>;

/// The SHA-256 digest of `bytes` (`sha2::Sha256::digest`): 32 bytes that
/// depend on the bytes alone.
#[verifier::external_body]
pub(crate) fn sha256_digest(bytes: &[u8]) -> (res: [u8; 32])
    ensures
        res@ == sha256_of(bytes@),
{
    let digest = <sha2::Sha256 as sha2::Digest>::digest(bytes);
    let mut out = [0u8; 32];
    out.copy_from_slice(digest.as_slice());
    out
}

/// The lower-case hexadecimal digit of a value below 16.
pub open spec fn hex_char(v: int) -> char {
    if v < 10 {
        (('0' as int) + v) as char
    } else {
        (('a' as int) + v - 10) as char
    }
}

/// Each byte as two lower-case hexadecimal digits, high digit first
/// (`{:x}` of a digest).
pub open spec fn lower_hex(bytes: Seq<u8>) -> Seq<char>
    decreases bytes.len(),
{
    if bytes.len() == 0 {
        Seq::empty()
    } else {
        lower_hex(bytes.drop_last()) + seq![
            hex_char(bytes.last() as int / 16),
            hex_char(bytes.last() as int % 16),
        ]
    }
}

fn hex_digit_char(v: u8) -> (res: char)
    requires
        v < 16,
    ensures
        res == hex_char(v as int),
{
    if v < 10 {
        ((48 + v) as char)
    } else {
        ((97 + v - 10) as char)
    }
}

/// Each byte as two lower-case hexadecimal digits.
pub fn lower_hex_string(bytes: &[u8]) -> (res: String)
    ensures
        res@ == lower_hex(bytes@),
{
    let mut s = String::new();
    let mut i: usize = 0;
    while i < bytes.len()
        invariant
            i <= bytes.len(),
            s@ == lower_hex(bytes@.take(i as int)),
        decreases bytes.len() - i,
    {
        let b = bytes[i];
        assert(bytes@.take(i + 1).drop_last() =~= bytes@.take(i as int));
        assert(bytes@.take(i + 1).last() == b);
        crate::text::push_char(&mut s, hex_digit_char(b / 16));
        crate::text::push_char(&mut s, hex_digit_char(b % 16));
        assert(s@ =~= lower_hex(bytes@.take(i + 1)));
        i += 1;
    }
    assert(bytes@.take(bytes.len() as int) =~= bytes@);
    s
}

/// The receipt of a received staged upload.
#[derive(Debug, Clone, PartialEq, Eq)]
pub struct StagedUploadReceipt {
    pub staged_upload_id: String,
    pub received_bytes: i64,
    pub sha256: String,
}

/// The receipt of the staged upload `id` that received `body`: its length
/// and its SHA-256 digest in lower-case hexadecimal.
pub fn upload_receipt(id: String, body: &[u8]) -> (res: StagedUploadReceipt)
    requires
        body.len() <= i64::MAX,
    ensures
        res.staged_upload_id == id,
        res.received_bytes == body.len(),
        res.sha256@ == lower_hex(sha256_of(body@)),
{
    let digest = sha256_digest(body);
    StagedUploadReceipt {
        staged_upload_id: id,
        received_bytes: body.len() as i64,
        sha256: lower_hex_string(&digest),
    }
}

/// A received upload waiting to be redeemed by the request it was staged
/// for.
#[derive(Debug, Clone, PartialEq, Eq)]
pub struct StagedEntry {
    pub id: String,
    pub purpose: StagedUploadPurpose,
    /// The last second (Unix time) at which it can be redeemed.
    pub expires_at: u64,
    /// The most bytes that it may receive.
    pub max_bytes: u64,
    /// Where its bytes are written.
    pub path: String,
}

fn copy_entry(e: &StagedEntry) -> (res: StagedEntry)
    ensures
        res == *e,
{
    StagedEntry {
        id: e.id.clone(),
        purpose: e.purpose,
        expires_at: e.expires_at,
        max_bytes: e.max_bytes,
        path: e.path.clone(),
    }
}

/// The index of the first staged upload with this id.
pub open spec fn entry_index(s: Seq<StagedEntry>, id: Seq<char>, from: int) -> Option<int>
    decreases s.len() - from,
{
    if from < 0 || from >= s.len() {
        None
    } else if s[from].id@ == id {
        Some(from)
    } else {
        entry_index(s, id, from + 1)
    }
}

/// No id occurs twice.
pub open spec fn distinct_ids(s: Seq<StagedEntry>) -> bool {
    forall|i: int, j: int| 0 <= i < j < s.len() ==> #[trigger] s[i].id@ != #[trigger] s[j].id@
}

proof fn lemma_entry_index(s: Seq<StagedEntry>, id: Seq<char>, from: int)
    requires
        0 <= from,
    ensures
        entry_index(s, id, from) matches Some(k) ==> from <= k < s.len() && s[k].id@ == id,
        entry_index(s, id, from) is None <==> (forall|i: int| from <= i < s.len() ==> s[i].id@ != id),
    decreases s.len() - from,
{
    if from < s.len() && s[from].id@ != id {
        lemma_entry_index(s, id, from + 1);
    }
}

proof fn lemma_remove_keeps_distinct(s: Seq<StagedEntry>, k: int)
    requires
        distinct_ids(s),
        0 <= k < s.len(),
    ensures
        distinct_ids(s.remove(k)),
        forall|i: int| 0 <= i < s.remove(k).len() ==> s.remove(k)[i].id@ != s[k].id@,
{
    let r = s.remove(k);
    assert forall|i: int, j: int| 0 <= i < j < r.len() implies #[trigger] r[i].id@ != #[trigger] r[j].id@ by {
        let a = if i < k { i } else { i + 1 };
        let b = if j < k { j } else { j + 1 };
        assert(r[i] == s[a]);
        assert(r[j] == s[b]);
    }
    assert forall|i: int| 0 <= i < r.len() implies r[i].id@ != s[k].id@ by {
        let a = if i < k { i } else { i + 1 };
        assert(r[i] == s[a]);
    }
}

/// An upload that was taken out of staging is gone from it: asked for
/// again, its id names nothing, so it is redeemed at most once.
pub proof fn law_staged_upload_redeemed_once(s: Seq<StagedEntry>, k: int)
    requires
        distinct_ids(s),
        0 <= k < s.len(),
    ensures
        entry_index(s.remove(k), s[k].id@, 0) is None,
{
    lemma_remove_keeps_distinct(s, k);
    lemma_entry_index(s.remove(k), s[k].id@, 0);
}

/// The answer where a staged upload cannot be redeemed.
pub open spec fn is_unknown_upload(e: ApiError) -> bool {
    is_error(e, NOT_FOUND, "not_found"@, "Unknown or already-redeemed staged upload."@)
}

fn unknown_upload() -> (res: ApiError)
    ensures
        is_unknown_upload(res),
{
    error_response(NOT_FOUND, "not_found", "Unknown or already-redeemed staged upload.")
}

/// An entry can be redeemed at `now` for `purpose`: unexpired and staged
/// for it.
pub open spec fn redeemable(e: StagedEntry, now: u64, purpose: StagedUploadPurpose) -> bool {
    now <= e.expires_at && e.purpose == purpose
}

/// The received uploads, each with a distinct id.
pub struct StagingStore {
    uploads: Vec<StagedEntry>,
}

impl StagingStore {
    #[verifier::type_invariant]
    spec fn well_formed(&self) -> bool {
        distinct_ids(self.uploads@)
    }

    /// The staged uploads.
    pub closed spec fn entries(&self) -> Seq<StagedEntry> {
        self.uploads@
    }

    /// An empty staging area.
    pub fn new() -> (res: Self)
        ensures
            res.entries() == Seq::<StagedEntry>::empty(),
    {
        StagingStore { uploads: Vec::new() }
    }

    fn position(&self, id: &str) -> (res: Option<usize>)
        ensures
            match res {
                Some(k) => entry_index(self.entries(), id@, 0) == Some(k as int) && k < self.entries().len(),
                None => entry_index(self.entries(), id@, 0) is None,
            },
    {
        proof {
            lemma_entry_index(self.uploads@, id@, 0);
        }
        let wanted = chars_of(id);
        let mut i: usize = 0;
        while i < self.uploads.len()
            invariant
                i <= self.uploads.len(),
                wanted@ == id@,
                entry_index(self.uploads@, id@, 0) == entry_index(self.uploads@, id@, i as int),
            decreases self.uploads.len() - i,
        {
            if chars_eq(chars_of(self.uploads[i].id.as_str()).as_slice(), wanted.as_slice()) {
                return Some(i);
            }
            i += 1;
        }
        None
    }

    /// Stages an upload unless its id is taken; `false` then, and nothing
    /// changes.
    pub fn insert(&mut self, entry: StagedEntry) -> (added: bool)
        ensures
            added == (entry_index(old(self).entries(), entry.id@, 0) is None),
            added ==> final(self).entries() == old(self).entries().push(entry),
            !added ==> final(self).entries() == old(self).entries(),
    {
        proof {
            use_type_invariant(&*self);
            lemma_entry_index(self.uploads@, entry.id@, 0);
        }
        if self.position(entry.id.as_str()).is_some() {
            return false;
        }
        let mut uploads: Vec<StagedEntry> = Vec::new();
        std::mem::swap(&mut uploads, &mut self.uploads);
        let ghost before = uploads@;
        uploads.push(entry);
        assert forall|i: int, j: int| 0 <= i < j < uploads@.len() implies #[trigger] uploads@[i].id@
            != #[trigger] uploads@[j].id@ by {
            if j == before.len() {
                assert(before[i].id@ != entry.id@);
            } else {
                assert(uploads@[i] == before[i] && uploads@[j] == before[j]);
            }
        }
        self.uploads = uploads;
        true
    }

    /// The staged upload with this id, if any.
    pub fn get(&self, id: &str) -> (res: Option<&StagedEntry>)
        ensures
            match entry_index(self.entries(), id@, 0) {
                Some(k) => res == Some(&self.entries()[k]),
                None => res is None,
            },
    {
        match self.position(id) {
            Some(k) => Some(&self.uploads[k]),
            None => None,
        }
    }

    /// Takes the upload with this id out of staging, if there is one.
    pub fn take(&mut self, id: &str) -> (res: Option<StagedEntry>)
        ensures
            match entry_index(old(self).entries(), id@, 0) {
                None => res is None && final(self).entries() == old(self).entries(),
                Some(k) => res == Some(old(self).entries()[k]) && final(self).entries()
                    == old(self).entries().remove(k),
            },
            entry_index(final(self).entries(), id@, 0) is None,
    {
        proof {
            use_type_invariant(&*self);
            lemma_entry_index(self.uploads@, id@, 0);
        }
        let k = match self.position(id) {
            Some(k) => k,
            None => return None,
        };
        proof {
            lemma_remove_keeps_distinct(self.uploads@, k as int);
            lemma_entry_index(self.uploads@.remove(k as int), id@, 0);
        }
        let mut uploads: Vec<StagedEntry> = Vec::new();
        std::mem::swap(&mut uploads, &mut self.uploads);
        proof {
            lemma_remove_keeps_distinct(uploads@, k as int);
        }
        let entry = uploads.remove(k);
        self.uploads = uploads;
        Some(entry)
    }

    /// Redeems the upload with this id for `purpose` at `now`: it leaves
    /// staging whether or not it can be redeemed, and is given back only
    /// where it is unexpired and staged for that purpose.
    pub fn redeem(&mut self, id: &str, now: u64, purpose: StagedUploadPurpose) -> (res: Result<
        StagedEntry,
        ApiError,
    >)
        ensures
            match entry_index(old(self).entries(), id@, 0) {
                None => (res matches Err(e) && is_unknown_upload(e)) && final(self).entries()
                    == old(self).entries(),
                Some(k) => final(self).entries() == old(self).entries().remove(k) && if redeemable(
                    old(self).entries()[k],
                    now,
                    purpose,
                ) {
                    res == Ok::<StagedEntry, ApiError>(old(self).entries()[k])
                } else {
                    res matches Err(e) && is_unknown_upload(e)
                },
            },
            entry_index(final(self).entries(), id@, 0) is None,
    {
        match self.take(id) {
            None => Err(unknown_upload()),
            Some(entry) => {
                if now > entry.expires_at || entry.purpose != purpose {
                    Err(unknown_upload())
                } else {
                    Ok(entry)
                }
            },
        }
    }

    /// Admits `body_len` bytes for the upload with this id at `now`: an
    /// unknown upload is refused; an expired one is refused and leaves
    /// staging; a body over the upload's ceiling is refused and the upload
    /// stays; otherwise the upload is given back, still staged.
    pub fn admit_bytes(&mut self, id: &str, now: u64, body_len: usize) -> (res: Result<
        StagedEntry,
        ApiError,
    >)
        ensures
            match entry_index(old(self).entries(), id@, 0) {
                None => (res matches Err(e) && is_unknown_upload(e)) && final(self).entries()
                    == old(self).entries(),
                Some(k) => if now > old(self).entries()[k].expires_at {
                    (res matches Err(e) && is_error(
                        e,
                        CONFLICT,
                        "staged_upload_expired"@,
                        "This staged upload has expired."@,
                    )) && final(self).entries() == old(self).entries().remove(k)
                } else if body_len > old(self).entries()[k].max_bytes {
                    (res matches Err(e) && is_error(
                        e,
                        CONFLICT,
                        "max_bytes_exceeded"@,
                        "Upload exceeds the staged upload's byte ceiling."@,
                    )) && final(self).entries() == old(self).entries()
                } else {
                    res == Ok::<StagedEntry, ApiError>(old(self).entries()[k])
                        && final(self).entries() == old(self).entries()
                },
            },
    {
        let entry = match self.get(id) {
            None => return Err(unknown_upload()),
            Some(e) => copy_entry(e),
        };
        match admit_upload_bytes(true, now, entry.expires_at, body_len, entry.max_bytes) {
            Ok(()) => Ok(entry),
            Err(e) => {
                if now > entry.expires_at {
                    self.take(id);
                }
                Err(e)
            },
        }
    }

    /// Checks, without redeeming it, that the upload with this id can be
    /// redeemed for `purpose` at `now`.
    pub fn check(&self, id: &str, now: u64, purpose: StagedUploadPurpose) -> (res: Result<
        &StagedEntry,
        ApiError,
    >)
        ensures
            match entry_index(self.entries(), id@, 0) {
                None => res matches Err(e) && is_unknown_upload(e),
                Some(k) => if redeemable(self.entries()[k], now, purpose) {
                    res == Ok::<&StagedEntry, ApiError>(&self.entries()[k])
                } else {
                    res matches Err(e) && is_unknown_upload(e)
                },
            },
    {
        match self.get(id) {
            None => Err(unknown_upload()),
            Some(entry) => {
                if now > entry.expires_at || entry.purpose != purpose {
                    Err(unknown_upload())
                } else {
                    Ok(entry)
                }
            },
        }
    }
}

} // verus!
