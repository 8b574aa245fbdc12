//! Attach human-readable context to errors.
//!
//! A failed operation often reports an error that says what went wrong but not what was being
//! attempted. `Remark` pairs such an error with a message that says so, and `ResultExt` attaches
//! one to the failure of a `Result`, leaving a success untouched.
mod remark;
mod result_ext;

pub use remark::{Message, Remark, Render};
pub use result_ext::{
    build_context_message, context_message, joined, lemma_empty_context,
    lemma_remark_shows_message, lemma_stacked_remarks, lemma_success_unchanged, texts,
    with_remark, ResultExt,
};
