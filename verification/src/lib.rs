//! Gallery scraping core: turns the HTML of a social-media page into album
//! and photo records, and falls back to fixed placeholder records when the
//! markup yields nothing.

pub mod extraction;
pub mod markup;
pub mod models;
pub mod routes;
pub mod scraper_service;
pub mod text;
