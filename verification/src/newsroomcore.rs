//! Background logic of the news reader: sources, articles, the state
//! machine, and feed normalization and aggregation.

pub mod datasources;
pub mod newsarticle;
pub mod newsfetchrss;
pub mod newsroomstate;
