//! Core of an image proxy: the decisions of a fetch and the making of
//! fixed-size letterboxed JPEG thumbnails.

pub mod canvas;
pub mod codec;
pub mod fetch;
pub mod gallery;
pub mod grid;
pub mod request;
pub mod scale;
pub mod service;
pub mod thumbnail;
