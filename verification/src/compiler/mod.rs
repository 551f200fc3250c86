//! Judging a candidate program from what the compiler and the program printed.

pub mod runner;

pub use runner::{
    after_compile, after_run, clean_error_output, CompileResult, ProcessEnd, Step, SystemError,
    ValidationResult,
};
