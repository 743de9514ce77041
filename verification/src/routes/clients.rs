//! `POST /clients`: registering an OAuth2 client.
use vstd::prelude::*;

use crate::error::{bad_request, AppError, ErrorKind};
use crate::hash::{genclientid, gensecret, hashed_from, hashpw, is_hex_of_bytes, lemma_hex_hashable};

verus! {

/// The body of a client registration.
pub struct CreateClientBody {
    pub name: String,
    pub redirecturis: Vec<String>,
}

/// A client about to be stored: its id, its secret (shown once), and the
/// hash the secret is stored under.
pub struct NewClient {
    pub clientid: String,
    pub secret: String,
    pub secrethash: String,
}

/// Checks a registration and makes the new client's credentials: a name
/// and at least one redirect URI are required; the id is 4 random bytes in
/// hex, the secret 32, stored as an argon2id hash. Once the checks pass,
/// it succeeds.
pub fn prepare_client(body: &CreateClientBody) -> (r: Result<NewClient, AppError>)
    ensures
        body.name@.len() == 0 ==> (r matches Err(e) && e@ == (
            ErrorKind::BadRequest,
            "name is required"@,
        )),
        body.name@.len() != 0 && body.redirecturis@.len() == 0 ==> (r matches Err(e) && e@ == (
            ErrorKind::BadRequest,
            "at least one redirect uri is required"@,
        )),
        body.name@.len() != 0 && body.redirecturis@.len() != 0 ==> (match r {
            Ok(c) => is_hex_of_bytes(c.clientid@, 4) && is_hex_of_bytes(c.secret@, 32)
                && hashed_from(c.secret@, c.secrethash@),
            Err(_) => false,
        }),
{
    if body.name.as_str().is_empty() {
        return Err(bad_request("name is required"));
    }
    if body.redirecturis.len() == 0 {
        return Err(bad_request("at least one redirect uri is required"));
    }
    let clientid = genclientid();
    let secret = gensecret();
    proof {
        lemma_hex_hashable(secret@, 32);
    }
    let secrethash = hashpw(secret.as_str())?;
    Ok(NewClient { clientid, secret, secrethash })
}

} // verus!
