//! Verified core of a converter from other Python package managers (pip, pip-tools,
//! Poetry) to uv: the decisions and text it produces while migrating a project.
pub mod text;
pub mod options;
pub mod errors;
pub mod style;
pub mod pep440;
pub mod build_backend;
pub mod project;
pub mod pip;
pub mod pyproject_doc;
pub mod poetry;
pub mod migration;
