//! The rows of each table, the insert ("New…") and update ("Update…") shapes,
//! and the joined "with relations" read shapes.
pub mod attendance;
pub mod document;
pub mod lesson;
pub mod parent;
pub mod student;
pub mod student_group;
pub mod teacher;
pub mod user;
