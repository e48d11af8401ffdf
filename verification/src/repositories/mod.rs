//! What is kept outside the process: the user directory and the revocation
//! store. The library holds their records, the commands sent to them and the
//! reading of their replies; the connections themselves live with the caller.

pub mod token_repository;
pub mod user_repository;
