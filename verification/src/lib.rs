//! A school-scheduling backend library: teachers, students, parents, student
//! groups, lessons, attendance records, document uploads and users, kept in a
//! relational-style store with verified CRUD operations. The one non-trivial
//! workflow is the lesson/attendance synchronizer: every lesson bound to a
//! student group carries exactly one attendance row per current group member,
//! re-established whenever the lesson's group assignment changes.
pub mod auth;
pub mod date;
pub mod error;
pub mod models;
pub mod pagination;
pub mod repositories;
pub mod responses;
pub mod services;
pub mod store;
