//! Lifecycle management and health supervision for containerised blockchain
//! node clients.
//!
//! The crate models the state machine that takes a client container from
//! "not yet created" to "continuously supervised" and back down to "removed":
//! container specifications built from per-client configuration, health
//! verdicts computed from engine-reported container state and recent log
//! lines, a bounded readiness wait, an unbounded supervision loop, and the
//! idempotent provisioning of the shared network, volumes and JWT secret that
//! every client container depends on. The container engine itself is an
//! external collaborator: callers perform the engine calls and feed the
//! results back into the verified decision functions defined here.

pub mod compose;
pub mod container;
pub mod decimal;
pub mod environment;
pub mod health;
pub mod jobs;
pub mod lighthouse;
pub mod logs;
pub mod monitoring;
pub mod nimbus;
pub mod node;
pub mod reth;
pub mod supervisor;
pub mod text;

use vstd::prelude::*;

verus! {

/// Errors surfaced by lifecycle and environment operations.
///
/// `Engine` carries a message from the container engine; `Container` is a
/// domain-level failure (a helper that exited non-zero, a node that never
/// became healthy or stopped being healthy); the remaining variants mirror
/// the error sources of the job boundary.
#[derive(Debug)]
pub enum Error {
    Engine(String),
    Json(String),
    Container(String),
    Other(String),
    Jwt(String),
}

pub type Result<T> = core::result::Result<T, Error>;

/// The lowercase hexadecimal digit for a value below sixteen.
pub open spec fn hex_digit(d: nat) -> char
    recommends
        d < 16,
{
    if d == 0 {
        '0'
    } else if d == 1 {
        '1'
    } else if d == 2 {
        '2'
    } else if d == 3 {
        '3'
    } else if d == 4 {
        '4'
    } else if d == 5 {
        '5'
    } else if d == 6 {
        '6'
    } else if d == 7 {
        '7'
    } else if d == 8 {
        '8'
    } else if d == 9 {
        '9'
    } else if d == 10 {
        'a'
    } else if d == 11 {
        'b'
    } else if d == 12 {
        'c'
    } else if d == 13 {
        'd'
    } else if d == 14 {
        'e'
    } else {
        'f'
    }
}

pub open spec fn is_lower_hex_digit(c: char) -> bool {
    ('0' <= c && c <= '9') || ('a' <= c && c <= 'f')
}

/// The lowercase hexadecimal encoding of a byte sequence: two digits per
/// byte, high nibble first, in input order.
pub open spec fn hex_rep(bytes: Seq<u8>) -> Seq<char>
    decreases bytes.len(),
{
    if bytes.len() == 0 {
        Seq::empty()
    } else {
        seq![hex_digit((bytes[0] / 16) as nat), hex_digit((bytes[0] % 16) as nat)] + hex_rep(
            bytes.skip(1),
        )
    }
}

pub proof fn lemma_hex_rep_len(bytes: Seq<u8>)
    ensures
        hex_rep(bytes).len() == 2 * bytes.len(),
    decreases bytes.len(),
{
    if bytes.len() > 0 {
        lemma_hex_rep_len(bytes.skip(1));
    }
}

pub proof fn lemma_hex_rep_digits(bytes: Seq<u8>)
    ensures
        forall|i: int| 0 <= i < hex_rep(bytes).len() ==> is_lower_hex_digit(#[trigger] hex_rep(bytes)[i]),
    decreases bytes.len(),
{
    if bytes.len() > 0 {
        lemma_hex_rep_digits(bytes.skip(1));
        assert forall|i: int| 0 <= i < hex_rep(bytes).len() implies is_lower_hex_digit(
            #[trigger] hex_rep(bytes)[i],
        ) by {
            if i >= 2 {
                assert(hex_rep(bytes)[i] == hex_rep(bytes.skip(1))[i - 2]);
            }
        }
    }
}

/// Relies on hex::encode: one pair of lowercase hexadecimal digits per input
/// byte, high nibble first, in input order.
#[verifier::external_body]
fn hex_encode_bytes(bytes: &Vec<u8>) -> (r: String)
    ensures
        r@ == hex_rep(bytes@),
{
    hex::encode(bytes)
}

/// Relies on rand::random to draw 32 bytes from the thread-local generator;
/// nothing is assumed of their values.
#[verifier::external_body]
fn random_secret_bytes() -> (r: Vec<u8>)
    ensures
        r@.len() == 32,
{
    rand::random::<[u8; 32]>().to_vec()
}

/// The shared JWT secret handed to every client container, as a lowercase
/// hexadecimal string of 64 digits (32 random bytes).
pub struct JwtConfig {
    pub secret: String,
}

impl JwtConfig {
    pub fn new() -> (r: Result<JwtConfig>)
        ensures
            r matches Ok(c) && c.secret@.len() == 64,
            r matches Ok(c) ==> forall|i: int|
                0 <= i < c.secret@.len() ==> is_lower_hex_digit(#[trigger] c.secret@[i]),
            r matches Ok(c) ==> exists|b: Seq<u8>| b.len() == 32 && c.secret@ == hex_rep(b),
    {
        let bytes = random_secret_bytes();
        let secret = hex_encode_bytes(&bytes);
        proof {
            lemma_hex_rep_len(bytes@);
            lemma_hex_rep_digits(bytes@);
        }
        Ok(JwtConfig { secret })
    }
}

} // verus!
