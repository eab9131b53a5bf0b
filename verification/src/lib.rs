//! Branch enumeration, ordering, and deletion planning for a git
//! branch-cleanup tool.
//!
//! The library holds the decision logic: parsing a branch-type filter,
//! building the branch list (skip-list filtering, commit-time
//! normalization, ordering), planning a deletion (local ref plus, for
//! remote branches, the remote name and deletion refspec), and choosing
//! a credential for a transport request. The host binary performs the
//! actual repository and network operations and feeds plain values in
//! and out.

pub mod branch;
pub mod credentials;
pub mod deletion;
pub mod listing;
pub mod strutil;

pub use branch::BranchType;
pub use branch::GitBranch;
pub use branch::RefKind;
pub use credentials::CredentialChoice;
pub use credentials::choose_credential;
pub use deletion::DeletionError;
pub use deletion::RemoteDeletion;
pub use listing::BranchEntry;
pub use listing::get_branches;
