//! The operator command line: the requests it sends to a server to create
//! an account and to mint an API key, and what it prints.

use vstd::prelude::*;
use vstd::utf8::encode_utf8;
use crate::crypto::account_keys::{is_keygen_failure, new_account_keys, protects_account_keys, rsa_spki_of_pkcs8};
use crate::crypto::random::is_random_failure_text;
use crate::crypto::master_key::{master_credentials, pbkdf2_identity};
use crate::text::{chars_of, concat, owned, string_of};
use crate::util::base64_text;

verus! {

/// `s` without any trailing occurrences of `c` (`str::trim_end_matches`).
pub open spec fn trim_end_char(s: Seq<char>, c: char) -> Seq<char>
    decreases s.len(),
{
    if s.len() > 0 && s.last() == c {
        trim_end_char(s.drop_last(), c)
    } else {
        s
    }
}

/// `s` without trailing occurrences of `c`.
pub fn trim_end_matches(s: &str, c: char) -> (r: String)
    ensures
        r@ == trim_end_char(s@, c),
{
    let v = chars_of(s);
    let mut n = v.len();
    assert(s@.subrange(0, n as int) =~= s@);
    while n > 0 && v[n - 1] == c
        invariant
            n <= v@.len(),
            v@ == s@,
            trim_end_char(s@, c) == trim_end_char(s@.subrange(0, n as int), c),
        decreases n,
    {
        assert(s@.subrange(0, n as int).drop_last() =~= s@.subrange(0, n - 1));
        n = n - 1;
    }
    let mut out: Vec<char> = Vec::new();
    for i in 0..n
        invariant
            n <= v@.len(),
            v@ == s@,
            out@ == s@.subrange(0, i as int),
    {
        out.push(v[i]);
        assert(out@ =~= s@.subrange(0, i + 1));
    }
    string_of(&out)
}

/// The URL of an API path on a server given with or without trailing
/// slashes.
pub fn endpoint(server: &str, path: &str) -> (r: String)
    ensures
        r@ == trim_end_char(server@, '/') + path@,
{
    let base = trim_end_matches(server, '/');
    concat(base.as_str(), path)
}

/// A password read from a line of input, without its line ends.
pub fn password_from_line(line: &str) -> (r: String)
    ensures
        r@ == trim_end_char(line@, '\n'),
{
    trim_end_matches(line, '\n')
}

/// The key pair sent at registration.
pub struct KeyPair {
    pub public_key: String,
    pub encrypted_private_key: String,
}

/// The registration request the command line sends.
pub struct RegisterRequest {
    pub email: String,
    pub name: String,
    pub master_password_hash: String,
    pub master_password_hint: Option<String>,
    pub key: String,
    pub kdf: u32,
    pub kdf_iterations: u32,
    pub kdf_memory: Option<u32>,
    pub kdf_parallelism: Option<u32>,
    pub keys: KeyPair,
}

/// Register with PBKDF2 (kdf 0) and the given iterations; an empty name
/// registers the account under its email.
pub fn registration_request(
    email: &str,
    name: &str,
    master_password_hash: String,
    key: String,
    kdf_iterations: u32,
    keys: KeyPair,
) -> (r: RegisterRequest)
    ensures
        r.email@ == email@,
        r.name@ == if name@.len() == 0 {
            email@
        } else {
            name@
        },
        r.master_password_hash == master_password_hash,
        r.master_password_hint is None,
        r.key == key,
        r.kdf == 0,
        r.kdf_iterations == kdf_iterations,
        r.kdf_memory is None && r.kdf_parallelism is None,
        r.keys == keys,
{
    RegisterRequest {
        email: owned(email),
        name: if name.unicode_len() == 0 {
            owned(email)
        } else {
            owned(name)
        },
        master_password_hash,
        master_password_hint: None,
        key,
        kdf: 0,
        kdf_iterations,
        kdf_memory: None,
        kdf_parallelism: None,
        keys,
    }
}

/// The registration the command line sends for an email, master password
/// and display name, with PBKDF2 of `kdf_iterations` iterations: the
/// master password hash, and fresh account keys protected under the master
/// key. Zero iterations are refused.
pub fn registration(email: &str, password: &str, name: &str, kdf_iterations: u32) -> (r: Result<
    RegisterRequest,
    String,
>)
    requires
        encode_utf8(password@).len() <= 4096,
    ensures
        kdf_iterations == 0 ==> (r matches Err(m) && m@
            == "identity derivation: pbkdf2 requires at least 1 iteration (got 0)"@),
        kdf_iterations != 0 ==> (r matches Err(m) ==> is_random_failure_text(m@) || is_keygen_failure(m@)),
        r matches Ok(req) ==> {
            let id = pbkdf2_identity(email@, password@, kdf_iterations);
            &&& req.email@ == email@
            &&& req.name@ == (if name@.len() == 0 {
                email@
            } else {
                name@
            })
            &&& req.master_password_hash@ == base64_text(id.0)
            &&& req.master_password_hint is None
            &&& req.kdf == 0 && req.kdf_iterations == kdf_iterations
            &&& req.kdf_memory is None && req.kdf_parallelism is None
            &&& exists|sym: Seq<u8>, public_der: Seq<u8>, private_der: Seq<u8>|
                sym.len() == 64 && public_der == rsa_spki_of_pkcs8(private_der) && #[trigger] protects_account_keys(
                    id.1,
                    id.2,
                    sym,
                    public_der,
                    private_der,
                    req.key@,
                    req.keys,
                )
        },
{
    let creds = master_credentials(email, password, kdf_iterations)?;
    let (key, keys) = new_account_keys(creds.enc_key.as_slice(), creds.mac_key.as_slice())?;
    Ok(registration_request(email, name, creds.password_hash, key, kdf_iterations, keys))
}

/// The form of the password login used to mint an API key.
pub open spec fn apikey_login_form(email: Seq<char>, password_hash: Seq<char>) -> Seq<(Seq<char>, Seq<char>)> {
    seq![
        ("grant_type"@, "password"@),
        ("username"@, email),
        ("password"@, password_hash),
        ("scope"@, "api offline_access"@),
        ("client_id"@, "web"@),
        ("deviceType"@, "10"@),
        ("deviceIdentifier"@, "orangevault-cli-get-apikey"@),
        ("deviceName"@, "orangevault-cli"@),
    ]
}

fn field(name: &str, value: &str) -> (r: (String, String))
    ensures
        r.0@ == name@ && r.1@ == value@,
{
    (owned(name), owned(value))
}

pub fn login_form(email: &str, password_hash: &str) -> (r: Vec<(String, String)>)
    ensures
        r@.map_values(|p: (String, String)| (p.0@, p.1@)) == apikey_login_form(email@, password_hash@),
{
    let mut r: Vec<(String, String)> = Vec::new();
    r.push(field("grant_type", "password"));
    r.push(field("username", email));
    r.push(field("password", password_hash));
    r.push(field("scope", "api offline_access"));
    r.push(field("client_id", "web"));
    r.push(field("deviceType", "10"));
    r.push(field("deviceIdentifier", "orangevault-cli-get-apikey"));
    r.push(field("deviceName", "orangevault-cli"));
    assert(r@.map_values(|p: (String, String)| (p.0@, p.1@)) =~= apikey_login_form(
        email@,
        password_hash@,
    ));
    r
}

/// The two lines printed for a minted key, ready for `export`: the client
/// id is the user's id prefixed with `user.`.
pub fn apikey_lines(user_id: &str, api_key: &str) -> (r: String)
    ensures
        r@ == "BW_CLIENTID=user."@ + user_id@ + "\nBW_CLIENTSECRET="@ + api_key@ + "\n"@,
{
    let mut r = concat("BW_CLIENTID=user.", user_id);
    r.append("\nBW_CLIENTSECRET=");
    r.append(api_key);
    r.append("\n");
    r
}

} // verus!
