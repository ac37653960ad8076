//! A workflow represents a single media pipeline. Each workflow contains one
//! or more steps that receive, transform or send media, and media passes from
//! one step to the next in the order in which they were defined.

pub mod definitions;
pub mod manager;
pub mod steps;
