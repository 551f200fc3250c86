//! Text as sequences of characters: the model that every contract of this
//! crate is stated over, and the executable routines that compute it.
//!
//! A `&str` or `String` is viewed as a `Seq<char>`. The routines here turn a
//! string into a `Vec<char>` once, work on that, and turn the answer back.

pub mod chars;
pub mod lines;
pub mod numbers;
pub mod order;
pub mod search;

pub use chars::{
    chopped, is_blank, is_space, is_whitespace, lemma_trim_end_margin, lemma_trim_margins,
    lemma_trim_start_append, lemma_trim_start_margin, same_text, to_chars, to_text, trim,
    trim_end, trim_range, trim_start, trimmed, without_last,
};
pub use lines::{
    cut_out, join, join_strings, lemma_join_push, lemma_line_end, line_count, line_end,
    line_spans, lines, spans_within, split_lines, texts, without_cr,
};
pub use numbers::{
    decimal, decimal_string, digit, digit_value, digits_value, lemma_digits_grow, pad_left,
    parse_number, parsed_number, push_decimal, push_decimal_padded,
};
pub use order::{
    ascending, in_order, lemma_precedes_total, lemma_precedes_transitive, precedes,
};
pub use search::{
    after_prefix, contains, contains_in, ends_with, matches_at, occurs_at, replace_all,
    replace_into, starts_with, strip_prefix,
};
