//! Podcast feed generation: from a podcast description with episodes and
//! their media files to one feed document for each declared format, and
//! from a feed document to canonical, indented markup.
//!
//! The work runs in one pass through four stages:
//!
//! * [`config`] holds the description and the rule on declared formats;
//! * [`resolver`] sorts each episode's files by format token, and reports
//!   the files it drops;
//! * [`assembler`] builds the items and the document of each format, as
//!   the plain values of [`feed`];
//! * [`render`] and [`markup`] write a document as markup and put the
//!   markup into canonical form.
//!
//! [`generator`] ties the stages together and stamps the feeds with the
//! time that [`clock`] reads; [`text`] holds what the stages share.

pub mod assembler;
pub mod clock;
pub mod config;
pub mod feed;
pub mod generator;
pub mod markup;
pub mod render;
pub mod resolver;
pub mod text;
