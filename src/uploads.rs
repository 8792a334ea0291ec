//! Files offered for upload: how their extension is read, the rules a file
//! must meet, the resource kind it is stored as, and the addresses and
//! signatures of the media store's upload API.

use vstd::prelude::*;
use vstd::arithmetic::div_mod::{lemma_div_denominator, lemma_fundamental_div_mod};
use sha1::Digest;
use crate::text::{contains_string, hex_char, hex_digit, push_char, ids, joined, lower_hex, push_decimal, push_joined,
    push_lower_hex, push_signed_decimal, decimal, signed_decimal};

verus! {

/// What `str::to_lowercase` makes of a text.
pub uninterp spec fn lower_of(s: Seq<char>) -> Seq<char>;

/// The SHA-1 digest of the UTF-8 encoding of a text.
pub uninterp spec fn sha1_of(s: Seq<char>) -> Seq<u8>;

/// Relies on `str::to_lowercase`: the result depends on the characters alone.
#[verifier::external_body]
fn lowercase(s: &str) -> (r: String)
    ensures
        r@ == lower_of(s@),
{
    s.to_lowercase()
}

/// Relies on `sha1::Sha1::digest` over the bytes of the text: a 20-byte digest
/// that depends on the text alone.
#[verifier::external_body]
fn sha1_digest(s: &str) -> (r: Vec<u8>)
    ensures
        r@ == sha1_of(s@),
        r@.len() == 20,
{
    sha1::Sha1::digest(s.as_bytes()).to_vec()
}

/// The part of a file name after its last dot; the whole name when it has none.
pub open spec fn after_last_dot(s: Seq<char>) -> Seq<char>
    decreases s.len(),
{
    if s.len() == 0 {
        s
    } else if s.last() == '.' {
        Seq::empty()
    } else {
        after_last_dot(s.drop_last()).push(s.last())
    }
}

/// The extension of a file name, lower-cased.
pub open spec fn extension_of(name: Seq<char>) -> Seq<char> {
    lower_of(after_last_dot(name))
}

/// The lower-cased extension of `name`.
fn lower_extension(name: &str) -> (r: String)
    ensures
        r@ == extension_of(name@),
{
    let n = name.unicode_len();
    let mut i: usize = n;
    assert(name@.subrange(0, n as int) =~= name@);
    assert(name@.subrange(n as int, n as int) =~= Seq::<char>::empty());
    while i > 0 && name.get_char(i - 1) != '.'
        invariant
            i <= n,
            n == name@.len(),
            after_last_dot(name@) == after_last_dot(name@.subrange(0, i as int)) + name@.subrange(i as int, n as int),
        decreases i,
    {
        let ghost head = name@.subrange(0, i as int);
        assert(head.drop_last() == name@.subrange(0, i - 1));
        assert(name@.subrange(i - 1, n as int) == seq![head.last()] + name@.subrange(i as int, n as int));
        i = i - 1;
    }
    if i == 0 {
        assert(name@.subrange(0, 0) =~= Seq::<char>::empty());
    } else {
        assert(name@.subrange(0, i as int).last() == name@[i - 1]);
    }
    assert(after_last_dot(name@) == name@.subrange(i as int, n as int));
    let segment = name.substring_char(i, n);
    lowercase(segment)
}

/// A file offered for upload.
#[derive(Debug, Clone)]
pub struct FileUpload {
    pub file_name: String,
    pub data: Vec<u8>,
    pub content_type: Option<String>,
}

impl FileUpload {
    pub fn new(file_name: String, data: Vec<u8>, content_type: Option<String>) -> (f: Self)
        ensures
            f.file_name == file_name,
            f.data == data,
            f.content_type == content_type,
    {
        FileUpload { file_name, data, content_type }
    }

    /// Size of the file in bytes.
    pub fn size(&self) -> (r: usize)
        ensures
            r == self.data@.len(),
    {
        self.data.len()
    }

    /// The lower-cased part of the name after its last dot (the whole name when
    /// it has no dot); always present.
    pub fn extension(&self) -> (r: Option<String>)
        ensures
            r matches Some(e) && e@ == extension_of(self.file_name@),
    {
        Some(lower_extension(self.file_name.as_str()))
    }
}

/// What a stored resource is, by its extension: `image`, `video` or `raw`.
pub open spec fn resource_type_of(ext: Seq<char>) -> Seq<char> {
    if ext == "jpg"@ || ext == "jpeg"@ || ext == "png"@ || ext == "gif"@ || ext == "webp"@
        || ext == "svg"@ || ext == "bmp"@ || ext == "ico"@ {
        "image"@
    } else if ext == "mp4"@ || ext == "mov"@ || ext == "avi"@ || ext == "mkv"@ || ext == "webm"@
        || ext == "flv"@ || ext == "wmv"@ {
        "video"@
    } else {
        "raw"@
    }
}

/// Whether `s` reads `literal`.
fn is(s: &String, literal: &str) -> (r: bool)
    ensures
        r == (s@ == literal@),
{
    *s == String::from_str(literal)
}

/// Owned copies of the texts, in order.
fn strings(literals: Vec<&str>) -> (r: Vec<String>)
    ensures
        ids(r@) == literals@.map_values(|s: &str| s@),
{
    let mut out: Vec<String> = Vec::new();
    let mut i: usize = 0;
    while i < literals.len()
        invariant
            i <= literals@.len(),
            ids(out@) == literals@.subrange(0, i as int).map_values(|s: &str| s@),
        decreases literals@.len() - i,
    {
        let ghost before = out@;
        out.push(String::from_str(literals[i]));
        assert(literals@.subrange(0, i + 1) == literals@.subrange(0, i as int).push(literals@[i as int]));
        assert(ids(out@) =~= ids(before).push(literals@[i as int]@));
        assert(ids(out@) =~= literals@.subrange(0, i + 1).map_values(|s: &str| s@));
        i = i + 1;
    }
    assert(literals@.subrange(0, literals@.len() as int) == literals@);
    out
}

/// The power of two by which `n` must be divided to leave at most 53
/// significant bits (one below that size).
pub open spec fn f64_scale(n: nat) -> nat
    decreases n,
{
    if n < 0x20_0000_0000_0000 {
        1
    } else {
        2 * f64_scale(n / 2)
    }
}

/// The number that `n` becomes as an `f64`: rounded to 53 significant bits,
/// ties to even.
pub open spec fn f64_value(n: nat) -> nat {
    let s = f64_scale(n);
    let q = n / s;
    let r = n % s;
    if 2 * r > s || (2 * r == s && q % 2 == 1) {
        (q + 1) * s
    } else {
        q * s
    }
}

/// `x / unit` in hundredths, rounded to the nearest, ties to even.
pub open spec fn hundredths(x: nat, unit: nat) -> nat
    recommends
        unit > 0,
{
    let q = (x * 100) / unit;
    let r = (x * 100) % unit;
    if 2 * r > unit || (2 * r == unit && q % 2 == 1) {
        q + 1
    } else {
        q
    }
}

/// A number of hundredths written with two decimals.
pub open spec fn two_decimals(h: nat) -> Seq<char> {
    decimal(h / 100) + seq!['.', hex_char((h % 100) / 10), hex_char((h % 100) % 10)]
}

/// A size for display: bytes below 1 KiB, else two decimals in the largest
/// binary unit (KB, MB, GB) that it reaches, from the size as an `f64`.
pub open spec fn size_text(bytes: nat) -> Seq<char> {
    if bytes >= 1024 * 1024 * 1024 {
        two_decimals(hundredths(f64_value(bytes), 1024 * 1024 * 1024)) + " GB"@
    } else if bytes >= 1024 * 1024 {
        two_decimals(hundredths(f64_value(bytes), 1024 * 1024)) + " MB"@
    } else if bytes >= 1024 {
        two_decimals(hundredths(f64_value(bytes), 1024)) + " KB"@
    } else {
        decimal(bytes) + " bytes"@
    }
}

/// `n` as an `f64` would hold it.
fn f64_value_of(n: u64) -> (v: u128)
    ensures
        v == f64_value(n as nat),
        v <= 2 * (n as nat) + 1,
{
    let wide = n as u128;
    let mut s: u128 = 1;
    while wide / s >= 0x20_0000_0000_0000
        invariant
            1 <= s <= wide + 1,
            f64_scale(n as nat) == s * f64_scale((wide / s) as nat),
        decreases wide + 1 - s,
    {
        proof {
            lemma_fundamental_div_mod(wide as int, s as int);
            assert(s * (wide / s) + wide % s == wide);
            assert(2 * s <= wide) by (nonlinear_arith)
                requires
                    s * (wide / s) + wide % s == wide,
                    wide % s >= 0,
                    wide / s >= 2,
                    s >= 1,
            ;
            lemma_div_denominator(wide as int, s as int, 2);
            assert(f64_scale((wide / s) as nat) == 2 * f64_scale(((wide / s) / 2) as nat));
        }
        s = s * 2;
        proof {
            assert(f64_scale(n as nat) == s * f64_scale((wide / s) as nat)) by (nonlinear_arith)
                requires
                    f64_scale(n as nat) == (s / 2) * f64_scale((wide / (s / 2)) as nat),
                    f64_scale((wide / (s / 2)) as nat) == 2 * f64_scale((wide / s) as nat),
                    s % 2 == 0,
            ;
        }
    }
    assert(f64_scale((wide / s) as nat) == 1);
    assert(f64_scale(n as nat) == s) by (nonlinear_arith)
        requires
            f64_scale(n as nat) == s * f64_scale((wide / s) as nat),
            f64_scale((wide / s) as nat) == 1,
    ;
    let q = wide / s;
    let r = wide % s;
    assert(q as nat == (n as nat) / f64_scale(n as nat));
    assert(r as nat == (n as nat) % f64_scale(n as nat));
    proof {
        lemma_fundamental_div_mod(wide as int, s as int);
        assert((q + 1) * s <= wide + s) by (nonlinear_arith)
            requires
                s * q + r == wide,
                r >= 0,
        ;
    }
    if 2 * r > s || (2 * r == s && q % 2 == 1) {
        (q + 1) * s
    } else {
        proof {
            assert(q * s <= wide + s) by (nonlinear_arith)
                requires
                    (q + 1) * s <= wide + s,
                    s >= 1,
            ;
        }
        q * s
    }
}

/// Appends `x / unit` with two decimals.
fn push_two_decimals(out: &mut String, x: u128, unit: u128)
    requires
        x <= 0x4_0000_0000_0000_0000,
        1024 <= unit <= 1024 * 1024 * 1024,
    ensures
        final(out)@ == old(out)@ + two_decimals(hundredths(x as nat, unit as nat)),
{
    let q = x * 100 / unit;
    let r = x * 100 % unit;
    assert(q <= x * 100) by (nonlinear_arith)
        requires
            q as int == (x * 100) as int / unit as int,
            unit >= 1,
    ;
    let h = if 2 * r > unit || (2 * r == unit && q % 2 == 1) {
        q + 1
    } else {
        q
    };
    push_decimal(out, h / 100);
    push_char(out, '.');
    push_char(out, hex_digit(((h % 100) / 10) as u8));
    push_char(out, hex_digit(((h % 100) % 10) as u8));
}

/// The rules an upload must meet.
#[derive(Debug, Clone)]
pub struct FileValidator {
    /// Accepted extensions, lower case.
    pub allowed_extensions: Vec<String>,
    /// Largest accepted size in bytes.
    pub max_file_size: usize,
    /// Smallest accepted size in bytes, if any.
    pub min_file_size: Option<usize>,
    /// Most files accepted in one batch, if any.
    pub max_file_count: Option<usize>,
}

/// The verdict on a file with name `name` and `size` bytes.
pub open spec fn file_verdict(v: FileValidator, name: Seq<char>, size: nat) -> Result<(), Seq<char>> {
    let ext = extension_of(name);
    if !ids(v.allowed_extensions@).contains(ext) {
        Err("Invalid file type '"@ + ext + "'. Allowed types: "@ + joined(ids(v.allowed_extensions@), ", "@))
    } else if size > v.max_file_size {
        Err("File too large. Maximum size: "@ + decimal(v.max_file_size as nat) + " bytes, file size: "@
            + decimal(size) + " bytes"@)
    } else if v.min_file_size is Some && size < v.min_file_size->0 {
        Err("File too small. Minimum size: "@ + decimal(v.min_file_size->0 as nat) + " bytes, file size: "@
            + decimal(size) + " bytes"@)
    } else if size == 0 {
        Err("File is empty"@)
    } else {
        Ok(())
    }
}

/// The verdict on a batch of `count` files.
pub open spec fn count_verdict(v: FileValidator, count: nat) -> Result<(), Seq<char>> {
    if count == 0 {
        Err("No files provided for upload"@)
    } else if v.max_file_count is Some && count > v.max_file_count->0 {
        Err("Too many files. Maximum allowed: "@ + decimal(v.max_file_count->0 as nat) + ", provided: "@
            + decimal(count))
    } else {
        Ok(())
    }
}

pub open spec fn result_view(r: Result<(), String>) -> Result<(), Seq<char>> {
    match r {
        Ok(()) => Ok(()),
        Err(e) => Err(e@),
    }
}

impl FileValidator {
    /// Images of common formats up to 5 MiB, at most 10 per batch.
    pub fn new() -> (v: Self)
        ensures
            ids(v.allowed_extensions@) == seq!["jpg"@, "jpeg"@, "png"@, "gif"@, "webp"@],
            v.max_file_size == 5 * 1024 * 1024,
            v.min_file_size is None,
            v.max_file_count == Some(10usize),
    {
        FileValidator {
            allowed_extensions: strings(vec!["jpg", "jpeg", "png", "gif", "webp"]),
            max_file_size: 5 * 1024 * 1024,
            min_file_size: None,
            max_file_count: Some(10),
        }
    }

    /// Images, from 1 KiB up to 10 MiB, at most 10 per batch.
    pub fn images() -> (v: Self)
        ensures
            ids(v.allowed_extensions@) == seq!["jpg"@, "jpeg"@, "png"@, "gif"@, "webp"@, "svg"@, "bmp"@],
            v.max_file_size == 10 * 1024 * 1024,
            v.min_file_size == Some(1024usize),
            v.max_file_count == Some(10usize),
    {
        FileValidator {
            allowed_extensions: strings(vec!["jpg", "jpeg", "png", "gif", "webp", "svg", "bmp"]),
            max_file_size: 10 * 1024 * 1024,
            min_file_size: Some(1024),
            max_file_count: Some(10),
        }
    }

    /// Videos, from 1 KiB up to 100 MiB, at most 5 per batch.
    pub fn videos() -> (v: Self)
        ensures
            ids(v.allowed_extensions@) == seq!["mp4"@, "mov"@, "avi"@, "mkv"@, "webm"@],
            v.max_file_size == 100 * 1024 * 1024,
            v.min_file_size == Some(1024usize),
            v.max_file_count == Some(5usize),
    {
        FileValidator {
            allowed_extensions: strings(vec!["mp4", "mov", "avi", "mkv", "webm"]),
            max_file_size: 100 * 1024 * 1024,
            min_file_size: Some(1024),
            max_file_count: Some(5),
        }
    }

    /// Office documents and text up to 25 MiB, at most 10 per batch.
    pub fn documents() -> (v: Self)
        ensures
            ids(v.allowed_extensions@) == seq!["pdf"@, "doc"@, "docx"@, "txt"@, "xls"@, "xlsx"@],
            v.max_file_size == 25 * 1024 * 1024,
            v.min_file_size is None,
            v.max_file_count == Some(10usize),
    {
        FileValidator {
            allowed_extensions: strings(vec!["pdf", "doc", "docx", "txt", "xls", "xlsx"]),
            max_file_size: 25 * 1024 * 1024,
            min_file_size: None,
            max_file_count: Some(10),
        }
    }

    /// The same rules with these extensions, lower-cased, as the accepted ones.
    pub fn with_extensions(self, extensions: Vec<&str>) -> (v: Self)
        ensures
            ids(v.allowed_extensions@) == extensions@.map_values(|e: &str| lower_of(e@)),
            v.max_file_size == self.max_file_size,
            v.min_file_size == self.min_file_size,
            v.max_file_count == self.max_file_count,
    {
        let mut out: Vec<String> = Vec::new();
        let mut i: usize = 0;
        while i < extensions.len()
            invariant
                i <= extensions@.len(),
                ids(out@) == extensions@.subrange(0, i as int).map_values(|e: &str| lower_of(e@)),
            decreases extensions@.len() - i,
        {
            let ghost before = out@;
            out.push(lowercase(extensions[i]));
            assert(extensions@.subrange(0, i + 1) == extensions@.subrange(0, i as int).push(extensions@[i as int]));
            assert(ids(out@) =~= ids(before).push(lower_of(extensions@[i as int]@)));
            assert(ids(out@) =~= extensions@.subrange(0, i + 1).map_values(|e: &str| lower_of(e@)));
            i = i + 1;
        }
        assert(extensions@.subrange(0, extensions@.len() as int) == extensions@);
        FileValidator { allowed_extensions: out, ..self }
    }

    /// The same rules with a largest size of `size_bytes`.
    pub fn with_max_size(self, size_bytes: usize) -> (v: Self)
        ensures
            v == (FileValidator { max_file_size: size_bytes, ..self }),
    {
        FileValidator { max_file_size: size_bytes, ..self }
    }

    /// The same rules with a largest size of `size_mb` MiB.
    pub fn with_max_size_mb(self, size_mb: usize) -> (v: Self)
        requires
            size_mb * 1024 * 1024 <= usize::MAX,
        ensures
            v == (FileValidator { max_file_size: (size_mb * 1024 * 1024) as usize, ..self }),
    {
        FileValidator { max_file_size: size_mb * 1024 * 1024, ..self }
    }

    /// The same rules with a smallest size of `size_bytes`.
    pub fn with_min_size(self, size_bytes: usize) -> (v: Self)
        ensures
            v == (FileValidator { min_file_size: Some(size_bytes), ..self }),
    {
        FileValidator { min_file_size: Some(size_bytes), ..self }
    }

    /// The same rules with at most `count` files per batch.
    pub fn with_max_count(self, count: usize) -> (v: Self)
        ensures
            v == (FileValidator { max_file_count: Some(count), ..self }),
    {
        FileValidator { max_file_count: Some(count), ..self }
    }

    /// Checks, in order, the extension, the largest size, the smallest size and
    /// emptiness, and names the first rule the file breaks.
    pub fn validate(&self, file: &FileUpload) -> (r: Result<(), String>)
        ensures
            result_view(r) == file_verdict(*self, file.file_name@, file.data@.len()),
    {
        let extension = match file.extension() {
            Some(e) => e,
            None => return Err(String::from_str("File has no extension")),
        };
        if !contains_string(&self.allowed_extensions, &extension) {
            let mut m = String::from_str("Invalid file type '");
            m.append(extension.as_str());
            m.append("'. Allowed types: ");
            push_joined(&mut m, &self.allowed_extensions, ", ");
            return Err(m);
        }
        let size = file.size();
        if size > self.max_file_size {
            let mut m = String::from_str("File too large. Maximum size: ");
            push_decimal(&mut m, self.max_file_size as u128);
            m.append(" bytes, file size: ");
            push_decimal(&mut m, size as u128);
            m.append(" bytes");
            return Err(m);
        }
        if let Some(min_size) = self.min_file_size {
            if size < min_size {
                let mut m = String::from_str("File too small. Minimum size: ");
                push_decimal(&mut m, min_size as u128);
                m.append(" bytes, file size: ");
                push_decimal(&mut m, size as u128);
                m.append(" bytes");
                return Err(m);
            }
        }
        if file.data.len() == 0 {
            return Err(String::from_str("File is empty"));
        }
        Ok(())
    }

    /// Checks the number of files of a batch: at least one, and no more than
    /// the largest count when there is one.
    pub fn check_file_count(&self, count: usize) -> (r: Result<(), String>)
        ensures
            result_view(r) == count_verdict(*self, count as nat),
    {
        if count == 0 {
            return Err(String::from_str("No files provided for upload"));
        }
        if let Some(max_count) = self.max_file_count {
            if count > max_count {
                let mut m = String::from_str("Too many files. Maximum allowed: ");
                push_decimal(&mut m, max_count as u128);
                m.append(", provided: ");
                push_decimal(&mut m, count as u128);
                return Err(m);
            }
        }
        Ok(())
    }

    /// A size for display: `512 bytes`, `1.50 KB`, `2.00 MB`, `1.25 GB`.
    pub fn format_size(bytes: usize) -> (r: String)
        ensures
            r@ == size_text(bytes as nat),
    {
        let mut out = String::new();
        if bytes < 1024 {
            push_decimal(&mut out, bytes as u128);
            out.append(" bytes");
            return out;
        }
        let v = f64_value_of(bytes as u64);
        if bytes >= 1024 * 1024 * 1024 {
            push_two_decimals(&mut out, v, 1024 * 1024 * 1024);
            out.append(" GB");
        } else if bytes >= 1024 * 1024 {
            push_two_decimals(&mut out, v, 1024 * 1024);
            out.append(" MB");
        } else {
            push_two_decimals(&mut out, v, 1024);
            out.append(" KB");
        }
        out
    }

    /// The resource type under which a file of this name is stored.
    pub fn get_resource_type(&self, file_name: &str) -> (r: String)
        ensures
            r@ == resource_type_of(extension_of(file_name@)),
    {
        let e = lower_extension(file_name);
        if is(&e, "jpg") || is(&e, "jpeg") || is(&e, "png") || is(&e, "gif") || is(&e, "webp")
            || is(&e, "svg") || is(&e, "bmp") || is(&e, "ico") {
            String::from_str("image")
        } else if is(&e, "mp4") || is(&e, "mov") || is(&e, "avi") || is(&e, "mkv") || is(&e, "webm")
            || is(&e, "flv") || is(&e, "wmv") {
            String::from_str("video")
        } else {
            String::from_str("raw")
        }
    }
}

/// Credentials and account of the media store.
pub struct CloudinaryConfig {
    pub cloud_name: String,
    pub api_key: String,
    pub api_secret: String,
    pub upload_preset: Option<String>,
}

/// The upload endpoint of `cloud` for resources of type `resource_type`.
pub open spec fn upload_url_of(cloud: Seq<char>, resource_type: Seq<char>) -> Seq<char> {
    "https://api.cloudinary.com/v1_1/"@ + cloud + "/"@ + resource_type + "/upload"@
}

/// The text that is signed: the parameters, the timestamp, then the secret.
pub open spec fn signed_text(params: Seq<char>, timestamp: int, secret: Seq<char>) -> Seq<char> {
    params + "&timestamp="@ + signed_decimal(timestamp) + secret
}

impl CloudinaryConfig {
    /// The upload endpoint for resources of type `resource_type`.
    pub fn upload_url(&self, resource_type: &str) -> (r: String)
        ensures
            r@ == upload_url_of(self.cloud_name@, resource_type@),
    {
        let mut url = String::from_str("https://api.cloudinary.com/v1_1/");
        url.append(self.cloud_name.as_str());
        url.append("/");
        url.append(resource_type);
        url.append("/upload");
        url
    }

    /// The signature of an authenticated request: the lower-case hexadecimal
    /// SHA-1 digest of the parameters, the timestamp and the secret.
    pub fn generate_signature(&self, params: &str, timestamp: i64) -> (r: String)
        ensures
            r@ == lower_hex(sha1_of(signed_text(params@, timestamp as int, self.api_secret@))),
    {
        let mut to_sign = String::from_str(params);
        to_sign.append("&timestamp=");
        push_signed_decimal(&mut to_sign, timestamp);
        to_sign.append(self.api_secret.as_str());
        let digest = sha1_digest(to_sign.as_str());
        let mut out = String::new();
        push_lower_hex(&mut out, &digest);
        out
    }
}

/// What the media store answers to a successful upload.
#[derive(Debug, Clone)]
pub struct CloudinaryUploadResponse {
    pub public_id: String,
    pub version: i64,
    pub signature: String,
    pub width: Option<u32>,
    pub height: Option<u32>,
    pub format: String,
    pub resource_type: String,
    pub created_at: String,
    pub bytes: u64,
    pub url: String,
    pub secure_url: String,
}

/// The error the media store reports.
#[derive(Debug, Clone)]
pub struct CloudinaryError {
    pub message: String,
}

/// The body of a failed request to the media store.
#[derive(Debug, Clone)]
pub struct CloudinaryErrorResponse {
    pub error: CloudinaryError,
}

/// The outcome of one file of a batch upload.
#[derive(Debug, Clone)]
pub struct UploadResult {
    pub file_name: String,
    pub success: bool,
    pub response: Option<CloudinaryUploadResponse>,
    pub error: Option<String>,
}

} // verus!
