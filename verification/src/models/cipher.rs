//! Ciphers as clients see and send them. The type-specific objects
//! (`login`, `card`, ...) are JSON the server stores without reading, held
//! here as JSON text.

use vstd::prelude::*;
use crate::db::models::{Cipher, CipherCollection, Favorite, FolderCipher};
use crate::models::send::opt_view;
use crate::text::{owned, str_eq};

verus! {

/// Cipher types.
pub const CIPHER_TYPE_LOGIN: i32 = 1;
pub const CIPHER_TYPE_SECURE_NOTE: i32 = 2;
pub const CIPHER_TYPE_CARD: i32 = 3;
pub const CIPHER_TYPE_IDENTITY: i32 = 4;

/// The fixed secure-note object (`{"Type":0}`).
pub const SECURE_NOTE_JSON: &'static str = "{\"Type\":0}";

/// A cipher as returned to clients.
pub struct CipherResponse {
    pub id: String,
    pub organization_id: Option<String>,
    pub folder_id: Option<String>,
    pub typ: i32,
    pub name: String,
    pub notes: Option<String>,
    pub fields: Option<String>,
    pub login: Option<String>,
    pub card: Option<String>,
    pub identity: Option<String>,
    pub secure_note: Option<String>,
    pub favorite: bool,
    pub reprompt: i32,
    pub organization_use_totp: bool,
    pub edit: bool,
    pub view_password: bool,
    pub key: Option<String>,
    pub revision_date: String,
    pub attachments: Option<Vec<String>>,
    pub password_history: Option<String>,
    pub collection_ids: Vec<String>,
    pub creation_date: String,
    pub deleted_date: Option<String>,
    pub object: String,
}

/// Whether `user` marked `cipher` as a favorite.
pub open spec fn is_favorite(favs: Seq<Favorite>, user: Seq<char>, cipher: Seq<char>) -> bool {
    exists|i: int| 0 <= i < favs.len() && #[trigger] favs[i].cipher_uuid@ == cipher && favs[i].user_uuid@ == user
}

/// The folder of the first folder link for `cipher`.
pub open spec fn folder_of(links: Seq<FolderCipher>, cipher: Seq<char>) -> Option<Seq<char>>
    decreases links.len(),
{
    if links.len() == 0 {
        None
    } else if links[0].cipher_uuid@ == cipher {
        Some(links[0].folder_uuid@)
    } else {
        folder_of(links.drop_first(), cipher)
    }
}

/// The collections `cipher` belongs to, in link order.
pub open spec fn collections_of(links: Seq<CipherCollection>, cipher: Seq<char>) -> Seq<Seq<char>>
    decreases links.len(),
{
    if links.len() == 0 {
        Seq::empty()
    } else {
        let rest = collections_of(links.drop_last(), cipher);
        if links.last().cipher_uuid@ == cipher {
            rest.push(links.last().collection_uuid@)
        } else {
            rest
        }
    }
}

/// Which response field holds a cipher's data: `login` for logins, `card`,
/// `identity`; secure notes get the fixed secure-note object.
pub open spec fn data_slots(atype: i32, data: Seq<char>) -> (
    Option<Seq<char>>,
    Option<Seq<char>>,
    Option<Seq<char>>,
    Option<Seq<char>>,
) {
    if atype == CIPHER_TYPE_LOGIN {
        (Some(data), None, None, None)
    } else if atype == CIPHER_TYPE_SECURE_NOTE {
        (None, None, None, Some(SECURE_NOTE_JSON@))
    } else if atype == CIPHER_TYPE_CARD {
        (None, Some(data), None, None)
    } else if atype == CIPHER_TYPE_IDENTITY {
        (None, None, Some(data), None)
    } else {
        (None, None, None, None)
    }
}

pub open spec fn strings_view(v: Seq<String>) -> Seq<Seq<char>> {
    v.map_values(|s: String| s@)
}

/// The response for a cipher whose favorite flag, folder and collections
/// are known.
pub open spec fn resolved_response(
    r: CipherResponse,
    c: Cipher,
    is_favorite: bool,
    folder_id: Option<Seq<char>>,
    collection_ids: Seq<Seq<char>>,
) -> bool {
    &&& r.id == c.uuid
    &&& r.organization_id == c.organization_uuid
    &&& opt_view(r.folder_id) == folder_id
    &&& r.typ == c.atype
    &&& r.name == c.name
    &&& r.notes == c.notes
    &&& r.fields == c.fields
    &&& (opt_view(r.login), opt_view(r.card), opt_view(r.identity), opt_view(r.secure_note)) == data_slots(
        c.atype,
        c.data@,
    )
    &&& r.favorite == is_favorite
    &&& r.reprompt == (match c.reprompt {
        Some(p) => p,
        None => 0,
    })
    &&& !r.organization_use_totp
    &&& r.edit
    &&& r.view_password
    &&& r.key == c.key
    &&& r.revision_date == c.updated_at
    &&& r.attachments is None
    &&& r.password_history == c.password_history
    &&& strings_view(r.collection_ids@) == collection_ids
    &&& r.creation_date == c.created_at
    &&& r.deleted_date == c.deleted_at
    &&& r.object@ == "cipherDetails"@
}

impl CipherResponse {
    /// Build a response from a cipher row, resolving the user's favorite
    /// flag, its folder and its collections from the given link rows.
    pub fn from_cipher(
        c: &Cipher,
        user_uuid: &str,
        favorites: &[Favorite],
        folder_ciphers: &[FolderCipher],
        cipher_collections: &[CipherCollection],
    ) -> (r: CipherResponse)
        ensures
            resolved_response(
                r,
                *c,
                is_favorite(favorites@, user_uuid@, c.uuid@),
                folder_of(folder_ciphers@, c.uuid@),
                collections_of(cipher_collections@, c.uuid@),
            ),
    {
        let mut is_fav = false;
        let nf = favorites.len();
        for i in 0..nf
            invariant
                nf == favorites@.len(),
                is_fav == exists|j: int| 0 <= j < i && #[trigger] favorites@[j].cipher_uuid@ == c.uuid@
                    && favorites@[j].user_uuid@ == user_uuid@,
        {
            if str_eq(favorites[i].cipher_uuid.as_str(), c.uuid.as_str()) && str_eq(
                favorites[i].user_uuid.as_str(),
                user_uuid,
            ) {
                is_fav = true;
            }
        }
        let mut folder_id: Option<String> = None;
        let mut k: usize = 0;
        let nfc = folder_ciphers.len();
        proof {
            assert(folder_ciphers@.skip(0) =~= folder_ciphers@);
        }
        while k < nfc
            invariant_except_break
                folder_id is None,
            invariant
                k <= nfc,
                nfc == folder_ciphers@.len(),
                folder_of(folder_ciphers@, c.uuid@) == folder_of(folder_ciphers@.skip(k as int), c.uuid@),
            ensures
                opt_view(folder_id) == folder_of(folder_ciphers@, c.uuid@),
            decreases nfc - k,
        {
            proof {
                assert(folder_ciphers@.skip(k as int).drop_first() =~= folder_ciphers@.skip(k + 1));
            }
            if str_eq(folder_ciphers[k].cipher_uuid.as_str(), c.uuid.as_str()) {
                folder_id = Some(folder_ciphers[k].folder_uuid.clone());
                break;
            }
            k = k + 1;
            proof {
                if k == nfc {
                    assert(folder_ciphers@.skip(k as int) =~= Seq::<FolderCipher>::empty());
                }
            }
        }
        let mut col_ids: Vec<String> = Vec::new();
        let ncc = cipher_collections.len();
        for i in 0..ncc
            invariant
                ncc == cipher_collections@.len(),
                strings_view(col_ids@) == collections_of(cipher_collections@.subrange(0, i as int), c.uuid@),
        {
            proof {
                let s = cipher_collections@.subrange(0, i + 1);
                assert(s.drop_last() =~= cipher_collections@.subrange(0, i as int));
            }
            if str_eq(cipher_collections[i].cipher_uuid.as_str(), c.uuid.as_str()) {
                col_ids.push(cipher_collections[i].collection_uuid.clone());
            }
            proof {
                assert(strings_view(col_ids@) =~= collections_of(cipher_collections@.subrange(0, i + 1), c.uuid@));
            }
        }
        proof {
            assert(cipher_collections@.subrange(0, ncc as int) =~= cipher_collections@);
        }
        Self::from_cipher_resolved(c, is_fav, folder_id, col_ids)
    }

    /// Build a response when the favorite flag, folder and collections are
    /// already known.
    pub fn from_cipher_resolved(
        c: &Cipher,
        is_favorite: bool,
        folder_id: Option<String>,
        collection_ids: Vec<String>,
    ) -> (r: CipherResponse)
        ensures
            resolved_response(r, *c, is_favorite, opt_view(folder_id), strings_view(collection_ids@)),
    {
        let (login, card, identity, secure_note) = if c.atype == CIPHER_TYPE_LOGIN {
            (Some(c.data.clone()), None, None, None)
        } else if c.atype == CIPHER_TYPE_SECURE_NOTE {
            (None, None, None, Some(owned(SECURE_NOTE_JSON)))
        } else if c.atype == CIPHER_TYPE_CARD {
            (None, Some(c.data.clone()), None, None)
        } else if c.atype == CIPHER_TYPE_IDENTITY {
            (None, None, Some(c.data.clone()), None)
        } else {
            (None, None, None, None)
        };
        let reprompt = match c.reprompt {
            Some(p) => p,
            None => 0,
        };
        CipherResponse {
            id: c.uuid.clone(),
            organization_id: c.organization_uuid.clone(),
            folder_id,
            typ: c.atype,
            name: c.name.clone(),
            notes: c.notes.clone(),
            fields: c.fields.clone(),
            login,
            card,
            identity,
            secure_note,
            favorite: is_favorite,
            reprompt,
            organization_use_totp: false,
            edit: true,
            view_password: true,
            key: c.key.clone(),
            revision_date: c.updated_at.clone(),
            attachments: None,
            password_history: c.password_history.clone(),
            collection_ids,
            creation_date: c.created_at.clone(),
            deleted_date: c.deleted_at.clone(),
            object: owned("cipherDetails"),
        }
    }
}

/// A cipher create or update request. The type-specific objects, custom
/// fields and password history are JSON text.
pub struct CipherRequest {
    pub typ: i32,
    pub name: String,
    pub notes: Option<String>,
    pub fields: Option<String>,
    pub login: Option<String>,
    pub card: Option<String>,
    pub identity: Option<String>,
    pub secure_note: Option<String>,
    pub folder_id: Option<String>,
    pub favorite: Option<bool>,
    pub reprompt: Option<i32>,
    pub key: Option<String>,
    pub password_history: Option<String>,
    pub last_known_revision_date: Option<String>,
    pub organization_id: Option<String>,
}

/// The type-specific object stored in a cipher's `data` column: `login`,
/// `card` or `identity` by type, `{}` when absent or for other types.
pub open spec fn spec_data_json(r: CipherRequest) -> Seq<char> {
    let v = if r.typ == CIPHER_TYPE_LOGIN {
        r.login
    } else if r.typ == CIPHER_TYPE_CARD {
        r.card
    } else if r.typ == CIPHER_TYPE_IDENTITY {
        r.identity
    } else {
        None
    };
    match v {
        Some(s) => s@,
        None => "{}"@,
    }
}

/// A cipher stores the object of its own type: a login (type 1) its
/// `login`, a card (type 3) its `card`, an identity (type 4) its
/// `identity`, or `{}` when that object is absent; a secure note (type 2)
/// and any other type store `{}`. Read back, the stored data fills the same
/// field of the cipher's response.
pub proof fn law_cipher_stores_its_own_object(r: CipherRequest)
    ensures
        r.typ == 1 ==> spec_data_json(r) == (match r.login {
            Some(s) => s@,
            None => "{}"@,
        }),
        r.typ == 3 ==> spec_data_json(r) == (match r.card {
            Some(s) => s@,
            None => "{}"@,
        }),
        r.typ == 4 ==> spec_data_json(r) == (match r.identity {
            Some(s) => s@,
            None => "{}"@,
        }),
        r.typ != 1 && r.typ != 3 && r.typ != 4 ==> spec_data_json(r) == "{}"@,
        r.typ == 1 ==> (r.login matches Some(s) ==> data_slots(r.typ, spec_data_json(r)) == (
            Some(s@),
            None::<Seq<char>>,
            None::<Seq<char>>,
            None::<Seq<char>>,
        )),
        r.typ == 3 ==> (r.card matches Some(s) ==> data_slots(r.typ, spec_data_json(r)) == (
            None::<Seq<char>>,
            Some(s@),
            None::<Seq<char>>,
            None::<Seq<char>>,
        )),
        r.typ == 4 ==> (r.identity matches Some(s) ==> data_slots(r.typ, spec_data_json(r)) == (
            None::<Seq<char>>,
            None::<Seq<char>>,
            Some(s@),
            None::<Seq<char>>,
        )),
{
}

impl CipherRequest {
    /// Extract the type-specific data blob to store in the `data` column.
    pub fn data_json(&self) -> (r: String)
        ensures
            r@ == spec_data_json(*self),
    {
        let v = if self.typ == CIPHER_TYPE_LOGIN {
            &self.login
        } else if self.typ == CIPHER_TYPE_CARD {
            &self.card
        } else if self.typ == CIPHER_TYPE_IDENTITY {
            &self.identity
        } else {
            &None
        };
        match v {
            Some(s) => s.clone(),
            None => owned("{}"),
        }
    }
}

} // verus!
