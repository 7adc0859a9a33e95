//! The tunnel server's table of sessions: creating a session with its
//! password hashes, and looking one up by its identifier.

use vstd::prelude::*;
use dashmap::DashMap;
use crate::relay::ViewerRole;

verus! {

/// The table of sessions is a concurrent hash map keyed by session id.
#[verifier::external_type_specification]
#[verifier::external_body]
#[verifier::reject_recursive_types(K)]
#[verifier::reject_recursive_types(V)]
#[verifier::reject_recursive_types(S)]
pub struct ExDashMap<K, V, S>(DashMap<K, V, S>);

/// The error that password hashing and checking can end in.
#[verifier::external_type_specification]
#[verifier::external_body]
pub struct ExBcryptError(bcrypt::BcryptError);

/// The error of drawing bytes from the system's randomness.
#[verifier::external_type_specification]
#[verifier::external_body]
pub struct ExRandomError(getrandom::Error);

/// A failed API request, answered with an HTTP status.
#[derive(Debug, Clone, Copy, PartialEq, Eq, Structural)]
pub enum ApiError {
    /// No session has the requested id.
    NotFound,
    /// The viewer gave no password that the session accepts.
    Unauthorized,
    /// The server could not complete the request.
    InternalServerError,
}

impl ApiError {
    /// The HTTP status code that answers the request.
    pub fn status_code(&self) -> (code: u16)
        ensures
            code == (match *self {
                ApiError::NotFound => 404u16,
                ApiError::Unauthorized => 401u16,
                ApiError::InternalServerError => 500u16,
            }),
    {
        match self {
            ApiError::NotFound => 404,
            ApiError::Unauthorized => 401,
            ApiError::InternalServerError => 500,
        }
    }
}

/// Optional text, taken by its characters.
pub open spec fn opt_text(s: Option<String>) -> Option<Seq<char>> {
    match s {
        Some(t) => Some(t@),
        None => None,
    }
}

/// What a session is made with: the optional passwords and whether
/// guests may only watch.
#[derive(Debug, Clone)]
pub struct CreateSessionRequest {
    pub owner_password: Option<String>,
    pub guest_password: Option<String>,
    pub is_guest_readonly: bool,
}

/// The answer to a successful session creation.
#[derive(Debug, Clone)]
pub struct CreateSessionResponse {
    pub session_id: String,
}

/// What the server keeps about a session, and tells about it.
#[derive(Debug, Clone)]
pub struct SessionDetails {
    pub session_id: String,
    pub owner_password_hash: Option<String>,
    pub guest_password_hash: Option<String>,
    pub is_guest_readonly: bool,
}

/// A session's details, with text taken by its characters.
pub struct SessionDetailsView {
    pub session_id: Seq<char>,
    pub owner_password_hash: Option<Seq<char>>,
    pub guest_password_hash: Option<Seq<char>>,
    pub is_guest_readonly: bool,
}

impl View for SessionDetails {
    type V = SessionDetailsView;

    open spec fn view(&self) -> SessionDetailsView {
        SessionDetailsView {
            session_id: self.session_id@,
            owner_password_hash: opt_text(self.owner_password_hash),
            guest_password_hash: opt_text(self.guest_password_hash),
            is_guest_readonly: self.is_guest_readonly,
        }
    }
}

/// The sessions that a table holds, by id.
pub uninterp spec fn session_table(table: DashMap<String, SessionDetails>) -> Map<Seq<char>, SessionDetailsView>;

/// Calls `DashMap::new`: the new table holds no session.
#[verifier::external_body]
fn table_new() -> (fresh: DashMap<String, SessionDetails>)
    ensures
        session_table(fresh).is_empty(),
{
    DashMap::new()
}

/// Calls `DashMap::insert`: afterwards `key` maps to `value` and every
/// other entry is as it was; the value that `key` had, if any, comes back.
#[verifier::external_body]
fn table_insert(table: &mut DashMap<String, SessionDetails>, key: String, value: SessionDetails) -> (previous: Option<SessionDetails>)
    ensures
        session_table(*final(table)) == session_table(*old(table)).insert(key@, value@),
        previous is Some <==> session_table(*old(table)).contains_key(key@),
        previous matches Some(p) ==> p@ == session_table(*old(table))[key@],
{
    table.insert(key, value)
}

/// Calls `DashMap::get` and clones the entry it finds: `None` exactly when
/// no entry has the key, else a copy of that entry.
#[verifier::external_body]
fn table_get(table: &DashMap<String, SessionDetails>, key: &String) -> (found: Option<SessionDetails>)
    ensures
        found is Some <==> session_table(*table).contains_key(key@),
        found matches Some(d) ==> d@ == session_table(*table)[key@],
{
    match table.get(key) {
        Some(entry) => Some(entry.value().clone()),
        None => None,
    }
}

/// The text that `bcrypt::hash` gives with the default cost: 60
/// characters, of which the first seven are `$2b$12$`.
pub open spec fn is_bcrypt_text(h: Seq<char>) -> bool {
    h.len() == 60 && h.subrange(0, 7) == "$2b$12$"@
}

/// The text of the bcrypt hash, at the default cost (12) and in the `2b`
/// form, of `password` under the 16-byte `salt`: what
/// `bcrypt::hash_with_salt_bytes(password, 12, salt)` gives as text.
pub uninterp spec fn bcrypt_salted_text(password: Seq<char>, salt: Seq<u8>) -> Seq<char>;

/// Calls `bcrypt::hash` with `bcrypt::DEFAULT_COST` (12). It hashes the
/// password under a 16-byte salt drawn from the system's randomness: the
/// result is the salted hash of this password under some salt, and, the
/// salt being random, nothing says which. It is a 60-character string that
/// begins `$2b$12$`. An error comes only when no randomness can be had.
#[verifier::external_body]
fn hash_password(password: &String) -> (r: Result<String, bcrypt::BcryptError>)
    ensures
        r matches Ok(h) ==> is_bcrypt_text(h@),
        r matches Ok(h) ==> exists|salt: Seq<u8>| salt.len() == 16 && h@ == #[trigger] bcrypt_salted_text(password@, salt),
{
    bcrypt::hash(password, bcrypt::DEFAULT_COST)
}

/// Whether a character is a lowercase hexadecimal digit.
pub open spec fn is_lower_hex(c: char) -> bool {
    ('0' <= c && c <= '9') || ('a' <= c && c <= 'f')
}

/// The hyphenated lowercase form of a random (version 4) UUID: 36
/// characters, hyphens at positions 8, 13, 18 and 23, lowercase hex digits
/// elsewhere, the version digit `4` at position 14 and one of `8`, `9`,
/// `a`, `b` at position 19.
pub open spec fn is_hyphenated_uuid(s: Seq<char>) -> bool {
    &&& s.len() == 36
    &&& forall|i: int| 0 <= i < 36 ==> if i == 8 || i == 13 || i == 18 || i == 23 {
        s[i] == '-'
    } else {
        is_lower_hex(#[trigger] s[i])
    }
    &&& s[14] == '4'
    &&& (s[19] == '8' || s[19] == '9' || s[19] == 'a' || s[19] == 'b')
}

/// Calls `getrandom::fill` on a 16-byte buffer: the bytes it drew from the
/// system's randomness, or the error when the system gives none. Which
/// bytes come is left unsaid: they are random.
#[verifier::external_body]
fn random_bytes() -> (r: Result<[u8; 16], getrandom::Error>)
{
    let mut bytes = [0u8; 16];
    match getrandom::fill(&mut bytes) {
        Ok(()) => Ok(bytes),
        Err(e) => Err(e),
    }
}

/// Byte `i` of the random (version 4) UUID made of `bytes`: the high four
/// bits of byte 6 become the version 4, the high two bits of byte 8 the
/// variant `10`; the other bytes stay as they are.
pub open spec fn uuid_byte(bytes: Seq<u8>, i: int) -> int {
    if i == 6 {
        bytes[6] % 16 + 64
    } else if i == 8 {
        bytes[8] % 64 + 128
    } else {
        bytes[i] as int
    }
}

/// The lowercase hexadecimal digit of `n`, for `n` below 16.
pub open spec fn hex_char(n: int) -> char {
    if n < 10 {
        (48 + n) as char
    } else {
        (87 + n) as char
    }
}

/// How many of the hyphens of a hyphenated UUID stand before position `p`.
pub open spec fn hyphens_before(p: int) -> int {
    (if p > 8 { 1int } else { 0int }) + (if p > 13 { 1int } else { 0int }) + (if p > 18 { 1int } else { 0int })
        + (if p > 23 { 1int } else { 0int })
}

/// The hyphenated lowercase text of the random UUID made of `bytes`: the
/// 32 hexadecimal digits of its bytes, high digit first, with hyphens at
/// positions 8, 13, 18 and 23.
pub open spec fn random_uuid_text(bytes: Seq<u8>) -> Seq<char> {
    Seq::new(
        36,
        |p: int|
            if p == 8 || p == 13 || p == 18 || p == 23 {
                '-'
            } else {
                let d = p - hyphens_before(p);
                let b = uuid_byte(bytes, d / 2);
                hex_char(if d % 2 == 0 { b / 16 } else { b % 16 })
            },
    )
}

/// Calls `uuid::Builder::from_random_bytes` and `into_uuid`, and formats
/// the UUID with `to_string`, which writes it hyphenated in lowercase.
#[verifier::external_body]
fn random_uuid(bytes: [u8; 16]) -> (id: String)
    ensures
        id@ == random_uuid_text(bytes@),
{
    uuid::Builder::from_random_bytes(bytes).into_uuid().to_string()
}

/// The text of a random UUID has the hyphenated form of a version 4 UUID.
pub proof fn lemma_random_uuid_form(bytes: Seq<u8>)
    requires
        bytes.len() == 16,
    ensures
        is_hyphenated_uuid(random_uuid_text(bytes)),
{
    let s = random_uuid_text(bytes);
    assert forall|i: int| 0 <= i < 36 implies if i == 8 || i == 13 || i == 18 || i == 23 {
        s[i] == '-'
    } else {
        is_lower_hex(#[trigger] s[i])
    } by {
        if !(i == 8 || i == 13 || i == 18 || i == 23) {
            let d = i - hyphens_before(i);
            assert(0 <= d < 32);
            let b = uuid_byte(bytes, d / 2);
            assert(0 <= b < 256);
        }
    }
    assert(uuid_byte(bytes, 6) / 16 == 4);
    let v = uuid_byte(bytes, 8) / 16;
    assert(8 <= v < 12);
}

/// The session id made of 16 random bytes: the hyphenated lowercase text
/// of the version 4 UUID that they make.
pub fn session_id_from_bytes(bytes: [u8; 16]) -> (id: String)
    ensures
        id@ == random_uuid_text(bytes@),
        is_hyphenated_uuid(id@),
{
    proof {
        lemma_random_uuid_form(bytes@);
    }
    random_uuid(bytes)
}

/// A fresh session id drawn from the system's randomness, or `None` when
/// the system gives none.
fn new_session_id() -> (id: Option<String>)
    ensures
        id matches Some(s) ==> exists|bytes: Seq<u8>| bytes.len() == 16 && s@ == #[trigger] random_uuid_text(bytes),
        id matches Some(s) ==> is_hyphenated_uuid(s@),
{
    match random_bytes() {
        Ok(bytes) => Some(session_id_from_bytes(bytes)),
        Err(_) => None,
    }
}

/// Whether bcrypt accepts `password` for `hash`: `Some(true)` or
/// `Some(false)` as `bcrypt::verify` answers, `None` when it refuses the
/// hash.
pub uninterp spec fn bcrypt_check(password: Seq<char>, hash: Seq<char>) -> Option<bool>;

/// Calls `bcrypt::verify`, which reads the cost and the salt from `hash`,
/// hashes `password` again with them and compares. Its answer depends on
/// the two texts alone. A hash that `bcrypt::hash` made of this password,
/// which is that password's hash under some 16-byte salt at the default
/// cost, is always accepted. Whether another password is refused is left
/// unsaid: bcrypt reads only the first 72 bytes of a password.
#[verifier::external_body]
fn verify_password(password: &String, hash: &String) -> (r: Result<bool, bcrypt::BcryptError>)
    ensures
        match r {
            Ok(b) => bcrypt_check(password@, hash@) == Some(b),
            Err(_) => bcrypt_check(password@, hash@) is None,
        },
        (exists|salt: Seq<u8>| salt.len() == 16 && hash@ == #[trigger] bcrypt_salted_text(password@, salt))
            ==> r matches Ok(true),
{
    bcrypt::verify(password.as_str(), hash.as_str())
}

/// Whether `password` is given and bcrypt accepts it for the stored `hash`.
pub open spec fn password_matches(password: Option<Seq<char>>, hash: Option<Seq<char>>) -> bool {
    match (password, hash) {
        (Some(p), Some(h)) => bcrypt_check(p, h) == Some(true),
        _ => false,
    }
}

/// Who a viewer of the session `d` is, from the password the viewer gave
/// and whether it is the session's first viewer: the owner with the owner's
/// password; a guest with the guest's password; in a session without
/// passwords the first viewer is the owner and the others are guests; in a
/// session with an owner's password only, a viewer without it is a guest;
/// otherwise the viewer is refused.
pub open spec fn viewer_access(d: SessionDetailsView, password: Option<Seq<char>>, first_viewer: bool) -> Result<ViewerRole, ApiError> {
    if password_matches(password, d.owner_password_hash) {
        Ok(ViewerRole::Owner)
    } else if password_matches(password, d.guest_password_hash) {
        Ok(ViewerRole::Guest)
    } else if d.owner_password_hash is None && d.guest_password_hash is None {
        if first_viewer {
            Ok(ViewerRole::Owner)
        } else {
            Ok(ViewerRole::Guest)
        }
    } else if d.guest_password_hash is None {
        Ok(ViewerRole::Guest)
    } else {
        Err(ApiError::Unauthorized)
    }
}

/// Whether `password` is given and bcrypt accepts it for the stored `hash`.
fn check_password(password: &Option<String>, hash: &Option<String>) -> (ok: bool)
    ensures
        ok == password_matches(opt_text(*password), opt_text(*hash)),
        (password matches Some(p) && hash matches Some(h) && exists|salt: Seq<u8>|
            salt.len() == 16 && h@ == #[trigger] bcrypt_salted_text(p@, salt)) ==> ok,
{
    match (password, hash) {
        (Some(p), Some(h)) => match verify_password(p, h) {
            Ok(b) => b,
            Err(_) => false,
        },
        _ => false,
    }
}

/// Decides who a viewer of a session is, from the password the viewer
/// gave and whether it is the session's first viewer. The owner's
/// password, as `create_session` stored its hash, always makes the viewer
/// the owner.
pub fn authenticate_viewer(details: &SessionDetails, password: &Option<String>, first_viewer: bool) -> (r: Result<ViewerRole, ApiError>)
    ensures
        r == viewer_access(details@, opt_text(*password), first_viewer),
        (password matches Some(p) && details.owner_password_hash matches Some(h) && exists|salt: Seq<u8>|
            salt.len() == 16 && h@ == #[trigger] bcrypt_salted_text(p@, salt)) ==> r == Ok::<ViewerRole, ApiError>(ViewerRole::Owner),
{
    if check_password(password, &details.owner_password_hash) {
        Ok(ViewerRole::Owner)
    } else if check_password(password, &details.guest_password_hash) {
        Ok(ViewerRole::Guest)
    } else if details.owner_password_hash.is_none() && details.guest_password_hash.is_none() {
        if first_viewer {
            Ok(ViewerRole::Owner)
        } else {
            Ok(ViewerRole::Guest)
        }
    } else if details.guest_password_hash.is_none() {
        Ok(ViewerRole::Guest)
    } else {
        Err(ApiError::Unauthorized)
    }
}

/// Only a viewer who gives a password that the owner's hash accepts is
/// the owner of a session with an owner's password; in a session without
/// passwords, exactly the first viewer is the owner.
pub proof fn lemma_owner_access(d: SessionDetailsView, password: Option<Seq<char>>, first_viewer: bool)
    ensures
        d.owner_password_hash is Some && viewer_access(d, password, first_viewer) == Ok::<ViewerRole, ApiError>(ViewerRole::Owner)
            ==> password_matches(password, d.owner_password_hash),
        d.owner_password_hash is None && d.guest_password_hash is None ==> viewer_access(d, password, first_viewer) == Ok::<ViewerRole, ApiError>(
            if first_viewer { ViewerRole::Owner } else { ViewerRole::Guest },
        ),
{
}

/// The sessions of the tunnel server, by id.
pub struct SessionTable {
    sessions: DashMap<String, SessionDetails>,
}

impl View for SessionTable {
    type V = Map<Seq<char>, SessionDetailsView>;

    closed spec fn view(&self) -> Map<Seq<char>, SessionDetailsView> {
        session_table(self.sessions)
    }
}

/// What looking up `id` in the sessions `table` answers.
pub open spec fn lookup_result(table: Map<Seq<char>, SessionDetailsView>, id: Seq<char>) -> Result<SessionDetailsView, ApiError> {
    if table.contains_key(id) {
        Ok(table[id])
    } else {
        Err(ApiError::NotFound)
    }
}

/// The details a new session is stored with.
pub open spec fn new_session_view(
    session_id: Seq<char>,
    owner_password_hash: Option<Seq<char>>,
    guest_password_hash: Option<Seq<char>>,
    is_guest_readonly: bool,
) -> SessionDetailsView {
    SessionDetailsView { session_id, owner_password_hash, guest_password_hash, is_guest_readonly }
}

impl SessionTable {
    /// Every session is stored under its own id.
    #[verifier::type_invariant]
    spec fn sessions_under_own_id(self) -> bool {
        &&& session_table(self.sessions).dom().finite()
        &&& forall|k: Seq<char>| #[trigger] session_table(self.sessions).contains_key(k)
            ==> session_table(self.sessions)[k].session_id == k
    }

    /// A table without sessions.
    pub fn new() -> (t: SessionTable)
        ensures
            t@ == Map::<Seq<char>, SessionDetailsView>::empty(),
    {
        let sessions = table_new();
        assert(session_table(sessions) =~= Map::<Seq<char>, SessionDetailsView>::empty());
        SessionTable { sessions }
    }

    /// Looks a session up by id: its details, which carry that id, or
    /// `NotFound` when no session has that id.
    pub fn get_session(&self, session_id: &String) -> (r: Result<SessionDetails, ApiError>)
        ensures
            match r {
                Ok(d) => lookup_result(self@, session_id@) == Ok::<SessionDetailsView, ApiError>(d@),
                Err(e) => lookup_result(self@, session_id@) == Err::<SessionDetailsView, ApiError>(e),
            },
            r matches Ok(d) ==> d.session_id@ == session_id@,
    {
        proof {
            use_type_invariant(self);
        }
        match table_get(&self.sessions, session_id) {
            Some(d) => Ok(d),
            None => Err(ApiError::NotFound),
        }
    }

    /// Stores a session under `session_id` with the given password hashes,
    /// and answers with its id. Every other session stays as it was, and
    /// the number of sessions grows by one unless the id was taken.
    pub fn register_session(
        &mut self,
        session_id: String,
        owner_password_hash: Option<String>,
        guest_password_hash: Option<String>,
        is_guest_readonly: bool,
    ) -> (r: CreateSessionResponse)
        ensures
            r.session_id@ == session_id@,
            final(self)@ == old(self)@.insert(
                session_id@,
                new_session_view(session_id@, opt_text(owner_password_hash), opt_text(guest_password_hash), is_guest_readonly),
            ),
            old(self)@.dom().finite(),
            final(self)@.dom().finite(),
            final(self)@.len() == old(self)@.len() + (if old(self)@.contains_key(session_id@) { 0int } else { 1int }),
    {
        let details = SessionDetails {
            session_id: session_id.clone(),
            owner_password_hash,
            guest_password_hash,
            is_guest_readonly,
        };
        proof {
            use_type_invariant(&*self);
        }
        let mut sessions = table_new();
        std::mem::swap(&mut sessions, &mut self.sessions);
        let ghost before = session_table(sessions);
        let _ = table_insert(&mut sessions, session_id.clone(), details);
        assert(session_table(sessions).dom() =~= before.dom().insert(session_id@));
        assert forall|k: Seq<char>| #[trigger] session_table(sessions).contains_key(k)
            implies session_table(sessions)[k].session_id == k by {
            if k != session_id@ {
                assert(session_table(old(self).sessions).contains_key(k));
            }
        }
        self.sessions = sessions;
        CreateSessionResponse { session_id }
    }

    /// Creates a session: draws 16 random bytes for its id, hashes each
    /// password that the request gives (owner first) with bcrypt under a
    /// random salt, and stores the session under the id. When the system
    /// gives no randomness, for the id or a salt, the request ends in
    /// `InternalServerError` and the table is unchanged. A stored hash is
    /// present exactly when the request gave that password, and is that
    /// password's hash. How the stored session is made of the id and the
    /// hashes is `register_session`'s contract.
    pub fn create_session(&mut self, request: CreateSessionRequest) -> (r: Result<CreateSessionResponse, ApiError>)
        ensures
            match r {
                Ok(resp) => {
                    let id = resp.session_id@;
                    let d = final(self)@[id];
                    &&& is_hyphenated_uuid(id)
                    &&& exists|bytes: Seq<u8>| bytes.len() == 16 && id == #[trigger] random_uuid_text(bytes)
                    &&& final(self)@ == old(self)@.insert(id, d)
                    &&& d.session_id == id
                    &&& d.is_guest_readonly == request.is_guest_readonly
                    &&& (d.owner_password_hash is Some <==> request.owner_password is Some)
                    &&& (d.guest_password_hash is Some <==> request.guest_password is Some)
                    &&& (d.owner_password_hash matches Some(h) ==> is_bcrypt_text(h))
                    &&& (d.guest_password_hash matches Some(h) ==> is_bcrypt_text(h))
                    &&& (d.owner_password_hash matches Some(h) ==> exists|salt: Seq<u8>|
                        salt.len() == 16 && h == #[trigger] bcrypt_salted_text(request.owner_password->0@, salt))
                    &&& (d.guest_password_hash matches Some(h) ==> exists|salt: Seq<u8>|
                        salt.len() == 16 && h == #[trigger] bcrypt_salted_text(request.guest_password->0@, salt))
                    &&& final(self)@.dom().finite()
                    &&& final(self)@.len() == old(self)@.len() + (if old(self)@.contains_key(id) { 0int } else { 1int })
                },
                Err(e) => e == ApiError::InternalServerError && final(self)@ == old(self)@,
            },
    {
        let session_id = match new_session_id() {
            Some(id) => id,
            None => return Err(ApiError::InternalServerError),
        };
        let owner_password_hash = match &request.owner_password {
            Some(password) => match hash_password(password) {
                Ok(h) => Some(h),
                Err(_) => return Err(ApiError::InternalServerError),
            },
            None => None,
        };
        let guest_password_hash = match &request.guest_password {
            Some(password) => match hash_password(password) {
                Ok(h) => Some(h),
                Err(_) => return Err(ApiError::InternalServerError),
            },
            None => None,
        };
        let resp = self.register_session(session_id, owner_password_hash, guest_password_hash, request.is_guest_readonly);
        Ok(resp)
    }
}

/// A session that was stored is found under its id with the details it
/// was stored with, and storing it changes what every other id answers in
/// no way.
pub proof fn lemma_stored_session_found(
    table: Map<Seq<char>, SessionDetailsView>,
    id: Seq<char>,
    details: SessionDetailsView,
    other: Seq<char>,
)
    ensures
        lookup_result(table.insert(id, details), id) == Ok::<SessionDetailsView, ApiError>(details),
        other != id ==> lookup_result(table.insert(id, details), other) == lookup_result(table, other),
{
}

/// Looking up an id in a table without sessions answers `NotFound`.
pub proof fn lemma_empty_table_finds_nothing(id: Seq<char>)
    ensures
        lookup_result(Map::<Seq<char>, SessionDetailsView>::empty(), id) == Err::<SessionDetailsView, ApiError>(ApiError::NotFound),
{
}

/// A guest's password protects its session: a viewer whose password
/// matches neither the owner's nor the guest's hash is refused, whether it
/// gives a wrong password or none and whether or not it comes first. The
/// guest's password admits a guest, and only a session with a guest's
/// password refuses anyone.
pub proof fn lemma_guest_access(d: SessionDetailsView, password: Option<Seq<char>>, first_viewer: bool)
    ensures
        d.guest_password_hash is Some && !password_matches(password, d.owner_password_hash)
            && !password_matches(password, d.guest_password_hash)
            ==> viewer_access(d, password, first_viewer) == Err::<ViewerRole, ApiError>(ApiError::Unauthorized),
        !password_matches(password, d.owner_password_hash) && password_matches(password, d.guest_password_hash)
            ==> viewer_access(d, password, first_viewer) == Ok::<ViewerRole, ApiError>(ViewerRole::Guest),
        password_matches(password, d.owner_password_hash)
            ==> viewer_access(d, password, first_viewer) == Ok::<ViewerRole, ApiError>(ViewerRole::Owner),
        viewer_access(d, password, first_viewer) is Err ==> d.guest_password_hash is Some,
        viewer_access(d, password, first_viewer) is Err
            ==> viewer_access(d, password, first_viewer) == Err::<ViewerRole, ApiError>(ApiError::Unauthorized),
        d.guest_password_hash is None && !password_matches(password, d.owner_password_hash) && d.owner_password_hash is Some
            ==> viewer_access(d, password, first_viewer) == Ok::<ViewerRole, ApiError>(ViewerRole::Guest),
{
}

} // verus!
