//! Safe, permanent privilege dropping for Unix processes.
//!
//! A process that starts with root privileges can use this library to
//! confine itself to a filesystem subtree (chroot) and to switch its
//! user, primary group and supplementary groups, in an order that never
//! leaves the process in a more dangerous state than it started in.
//!
//! The entry point is [`PrivDrop`]: a builder that accumulates the
//! desired target identity and applies it once, irreversibly, with
//! [`PrivDrop::apply`].

mod errors;
mod groups;
mod names;
mod parse;
mod plan;
mod privdrop;
mod resolve;
mod sys;

pub use errors::ErrorKind;
pub use errors::PrivDropError;
pub use errors::kind_description;
pub use groups::lemma_merge_ignores_duplicates;
pub use groups::merged_group_list;
pub use groups::no_dups;
pub use names::check_name;
pub use names::valid_name;
pub use parse::parse_numeric_id;
pub use parse::spec_parse_u32;
pub use plan::Step;
pub use plan::StepView;
pub use plan::build_plan;
pub use plan::chroot_steps;
pub use plan::gate_steps;
pub use plan::group_steps;
pub use plan::is_mutating;
pub use plan::lemma_confinement_precedes_identity;
pub use plan::lemma_empty_request_empty_plan;
pub use plan::lemma_privilege_checked_first;
pub use plan::lemma_user_change_last;
pub use plan::spec_plan;
pub use plan::steps_view;
pub use plan::user_steps;
pub use privdrop::PrivDrop;
pub use privdrop::uidcheck;
pub use resolve::ResolvedIds;
pub use resolve::default_supplementary_groups;
pub use resolve::gid_from_lookup;
pub use resolve::resolve_group;
pub use resolve::resolve_user;
pub use resolve::user_ids_from_lookup;
