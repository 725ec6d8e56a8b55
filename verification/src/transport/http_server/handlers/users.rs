//! The user forms: fields of a multipart form, the requests built from them, and where an
//! uploaded avatar is stored.
use vstd::prelude::*;
use vstd::string::*;
use vstd::utf8::{decode_utf8, valid_utf8};
use crate::adapter::helpers::{is_ascii_alphanumeric, rand_str_limit};
use crate::err_msg::ErrMsg;
use crate::status;
use crate::text::{append_i64, decimal_int, opt_view, str_eq, to_lowercase, unicode_lowercase, utf8_to_string};
use crate::transport::models::{RequestUserCreate, RequestUserUpdate};
use crate::types::DateTime;

verus! {

/// The fields of a form as a map: a later field replaces an earlier one of the same name.
pub open spec fn fields_map(s: Seq<(Seq<char>, Seq<u8>)>) -> Map<Seq<char>, Seq<u8>>
    decreases s.len(),
{
    if s.len() == 0 {
        Map::empty()
    } else {
        fields_map(s.drop_last()).insert(s.last().0, s.last().1)
    }
}

/// Past position `i` no field has the name `k`: the map agrees with the map of the first
/// `i` fields at `k`.
pub proof fn lemma_fields_map_prefix(s: Seq<(Seq<char>, Seq<u8>)>, i: int, k: Seq<char>)
    requires
        0 <= i <= s.len(),
        forall|j: int| i <= j < s.len() ==> (#[trigger] s[j]).0 != k,
    ensures
        fields_map(s).dom().contains(k) == fields_map(s.take(i)).dom().contains(k),
        fields_map(s).dom().contains(k) ==> fields_map(s)[k] == fields_map(s.take(i))[k],
    decreases s.len(),
{
    if s.len() == i {
        assert(s.take(i) =~= s);
    } else {
        let t = s.drop_last();
        assert(t.take(i) =~= s.take(i));
        assert forall|j: int| i <= j < t.len() implies (#[trigger] t[j]).0 != k by {
            assert(t[j] == s[j]);
        }
        lemma_fields_map_prefix(t, i, k);
    }
}

/// The fields of a multipart form, by name.
pub struct FormFields {
    entries: Vec<(String, Vec<u8>)>,
}

impl View for FormFields {
    type V = Map<Seq<char>, Seq<u8>>;

    closed spec fn view(&self) -> Map<Seq<char>, Seq<u8>> {
        fields_map(self.pairs())
    }
}

impl FormFields {
    closed spec fn pairs(&self) -> Seq<(Seq<char>, Seq<u8>)> {
        self.entries@.map_values(|e: (String, Vec<u8>)| (e.0@, e.1@))
    }

    /// No field.
    pub fn new() -> (r: Self)
        ensures
            r@ == Map::<Seq<char>, Seq<u8>>::empty(),
    {
        FormFields { entries: Vec::new() }
    }

    /// Adds a field; it replaces an earlier field of the same name.
    pub fn insert(&mut self, name: String, data: Vec<u8>)
        ensures
            final(self)@ == old(self)@.insert(name@, data@),
    {
        let ghost before = self.pairs();
        let ghost e = (name@, data@);
        self.entries.push((name, data));
        assert(self.pairs() =~= before.push(e));
        assert(self.pairs().drop_last() =~= before);
    }

    /// The data of the field with the name, if there is one.
    pub fn get(&self, key: &str) -> (r: Option<&Vec<u8>>)
        ensures
            r is Some <==> self@.dom().contains(key@),
            r matches Some(v) ==> v@ == self@[key@],
    {
        let ghost s = self.pairs();
        let mut i = self.entries.len();
        while i > 0
            invariant
                i <= self.entries@.len(),
                s == self.pairs(),
                forall|j: int| i <= j < s.len() ==> (#[trigger] s[j]).0 != key@,
            decreases i,
        {
            let found = str_eq(self.entries[i - 1].0.as_str(), key);
            if found {
                proof {
                    lemma_fields_map_prefix(s, i as int, key@);
                    assert(s.take(i as int).drop_last() =~= s.take(i - 1));
                    assert(s.take(i as int).last() == s[i - 1]);
                }
                return Some(&self.entries[i - 1].1);
            }
            i = i - 1;
        }
        proof {
            lemma_fields_map_prefix(s, 0, key@);
            assert(s.take(0) =~= Seq::<(Seq<char>, Seq<u8>)>::empty());
        }
        None
    }
}

/// The text of a form field: its data read as UTF-8, where there is such a field and its
/// data is valid UTF-8.
pub open spec fn form_text(m: Map<Seq<char>, Seq<u8>>, key: Seq<char>) -> Option<Seq<char>> {
    if m.dom().contains(key) && valid_utf8(m[key]) {
        Some(decode_utf8(m[key]))
    } else {
        None
    }
}

/// The text of a form field, or nothing where there is none.
pub fn get_string_option_from_map(map: &FormFields, key: &str) -> (r: Option<String>)
    ensures
        opt_view(r) == form_text(map@, key@),
{
    match map.get(key) {
        Some(bytes) => utf8_to_string(bytes),
        None => None,
    }
}

/// The text of a form field, or the empty text where there is none.
pub fn get_string_from_map(map: &FormFields, key: &str) -> (r: String)
    ensures
        r@ == match form_text(map@, key@) {
            Some(t) => t,
            None => Seq::<char>::empty(),
        },
{
    match get_string_option_from_map(map, key) {
        Some(s) => s,
        None => String::new(),
    }
}

/// Why an upload failed: the status, and the message for the client (empty where the
/// failure is internal).
#[derive(Debug)]
pub struct UploadErr {
    pub status_code: u16,
    pub msg: String,
}

impl UploadErr {
    /// The uploaded file could not be created: internal.
    pub fn create_failed() -> (r: UploadErr)
        ensures
            r.status_code == status::INTERNAL_SERVER_ERROR,
            r.msg@ == Seq::<char>::empty(),
    {
        UploadErr { status_code: status::INTERNAL_SERVER_ERROR, msg: String::new() }
    }

    /// The uploaded data could not be written: `400`, `BadFileData`.
    pub fn write_failed() -> (r: UploadErr)
        ensures
            r.status_code == status::BAD_REQUEST,
            r.msg@ == ErrMsg::BadFileData.text(),
    {
        UploadErr { status_code: status::BAD_REQUEST, msg: ErrMsg::BadFileData.to_string() }
    }
}

/// What `image::guess_format` says of some data: `None` where it knows no format, else
/// the first file extension of the format, if it has one.
pub uninterp spec fn image_extension(data: Seq<u8>) -> Option<Option<Seq<char>>>;

/// The image format of the data by `image::guess_format`, given as the first of its
/// `extensions_str`; the error as its text. As the named `image_extension` says.
#[verifier::external_body]
fn guess_image_extension(data: &[u8]) -> (r: Result<Option<String>, String>)
    ensures
        r is Err <==> image_extension(data@) is None,
        r matches Ok(e) ==> image_extension(data@) == Some(opt_view(e)),
{
    match image::guess_format(data) {
        Ok(f) => Ok(f.extensions_str().first().map(|e| e.to_string())),
        Err(e) => Err(e.to_string()),
    }
}

/// Where an uploaded image is stored: `./web/uploaded/<timestamp>_<suffix>.<extension>`.
pub open spec fn upload_path(timestamp: i64, suffix: Seq<char>, ext: Seq<char>) -> Seq<char> {
    "./web/uploaded/"@ + decimal_int(timestamp as int) + "_"@ + suffix + "."@ + ext
}

/// Five ASCII letters and digits.
pub open spec fn random_suffix(s: Seq<char>) -> bool {
    s.len() == 5 && forall|i: int| 0 <= i < 5 ==> is_ascii_alphanumeric(#[trigger] s[i])
}

/// The path of an image with the extension, uploaded at some time with some suffix.
pub open spec fn is_upload_path(path: Seq<char>, ext: Seq<char>) -> bool {
    exists|t: i64, suffix: Seq<char>| random_suffix(suffix) && path == upload_path(t, suffix, ext)
}

/// The path of an uploaded image with this timestamp, suffix and extension.
pub fn upload_file_path(timestamp: i64, suffix: &str, ext: &str) -> (r: String)
    ensures
        r@ == upload_path(timestamp, suffix@, ext@),
{
    let mut r = String::from_str("./web/uploaded/");
    append_i64(&mut r, timestamp);
    r.append("_");
    r.append(suffix);
    r.append(".");
    r.append(ext);
    r
}

/// The handlers of the user endpoints.
pub struct Handlers<ES> {
    _marker_es: core::marker::PhantomData<ES>,
}

impl<ES> Handlers<ES> {
    /// The request to create a user from a form: address, password, name and role; the
    /// avatar follows from the upload.
    pub fn user_create_request(form: &FormFields) -> (r: RequestUserCreate)
        ensures
            r.email@ == match form_text(form@, "email"@) {
                Some(t) => t,
                None => Seq::<char>::empty(),
            },
            r.password@ == match form_text(form@, "password"@) {
                Some(t) => t,
                None => Seq::<char>::empty(),
            },
            opt_view(r.name) == form_text(form@, "name"@),
            opt_view(r.role) == form_text(form@, "role"@),
            r.avatar is None,
    {
        RequestUserCreate {
            email: get_string_from_map(form, "email"),
            password: get_string_from_map(form, "password"),
            name: get_string_option_from_map(form, "name"),
            role: get_string_option_from_map(form, "role"),
            avatar: None,
        }
    }

    /// The request to change a user from a form: the fields present, and removal of the
    /// avatar where the field `is_remove_avatar` reads `true` in any case; the avatar
    /// follows from the upload.
    pub fn user_update_request(form: &FormFields) -> (r: RequestUserUpdate)
        ensures
            opt_view(r.email) == form_text(form@, "email"@),
            opt_view(r.password) == form_text(form@, "password"@),
            opt_view(r.name) == form_text(form@, "name"@),
            opt_view(r.role) == form_text(form@, "role"@),
            r.avatar is None,
            r.is_remove_avatar == (unicode_lowercase(
                match form_text(form@, "is_remove_avatar"@) {
                    Some(t) => t,
                    None => Seq::<char>::empty(),
                },
            ) == "true"@),
    {
        let flag = get_string_from_map(form, "is_remove_avatar");
        let lower = to_lowercase(flag.as_str());
        RequestUserUpdate {
            email: get_string_option_from_map(form, "email"),
            password: get_string_option_from_map(form, "password"),
            name: get_string_option_from_map(form, "name"),
            role: get_string_option_from_map(form, "role"),
            avatar: None,
            is_remove_avatar: str_eq(lower.as_str(), "true"),
        }
    }

    /// Where to store an uploaded avatar: data in no known image format is an internal
    /// failure (`500`, no message); a format without a file extension is refused (`400`,
    /// `UndefinedTypeImage`); otherwise the path is named after the current time and five
    /// random letters and digits.
    pub fn upload_target(file_data: &Vec<u8>) -> (r: Result<String, UploadErr>)
        ensures
            match image_extension(file_data@) {
                None => r matches Err(e) && e.status_code == status::INTERNAL_SERVER_ERROR
                    && e.msg@ == Seq::<char>::empty(),
                Some(None) => r matches Err(e) && e.status_code == status::BAD_REQUEST
                    && e.msg@ == ErrMsg::UndefinedTypeImage.text(),
                Some(Some(ext)) => r matches Ok(path) && is_upload_path(path@, ext),
            },
    {
        let data = file_data.as_slice();
        assert(data@ == file_data@);
        let ext = match guess_image_extension(data) {
            Err(_) => {
                return Err(UploadErr { status_code: status::INTERNAL_SERVER_ERROR, msg: String::new() });
            },
            Ok(None) => {
                return Err(
                    UploadErr {
                        status_code: status::BAD_REQUEST,
                        msg: ErrMsg::UndefinedTypeImage.to_string(),
                    },
                );
            },
            Ok(Some(e)) => e,
        };
        let now = DateTime::now().timestamp();
        let suffix = rand_str_limit(5);
        let path = upload_file_path(now, suffix.as_str(), ext.as_str());
        assert(random_suffix(suffix@));
        assert(is_upload_path(path@, ext@));
        Ok(path)
    }
}

} // verus!
