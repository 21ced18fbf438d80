//! One service per entity: thin orchestration over the repositories. The one
//! piece of real business logic is the lesson service's attendance
//! synchronizer.
pub mod attendance_service;
pub mod document_service;
pub mod lesson_service;
pub mod parent_service;
pub mod student_group_service;
pub mod student_service;
pub mod teacher_service;
pub mod user_service;
