//! Issues short-lived signed bearer credentials for a catalog service and
//! builds the authenticated search exchange around them: deterministic
//! claims, base64url compact encoding, ECDSA P-256 signing, exact request
//! construction, and typed classification of every response.

pub mod errors;
pub mod b64;
pub mod text;
pub mod token;
pub mod music;
pub mod decode;
pub mod playlist;
