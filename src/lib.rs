//! An abstract model of presentation slides: decks, their provenance, and
//! the content of each slide, with the rules by which slide text is stored.

pub mod slides;
pub mod text;

pub use slides::{
    EmptySlide, LinkedEntity, MultiLanguageMainContentSlide, PresentationChapter,
    SimplePictureSlide, SingleLanguageMainContentSlide, Slide, SlideContent, TitleSlide,
};
