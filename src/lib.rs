//! A small command-line toolkit: converting delimited tables into JSON or YAML
//! documents, and generating passwords under a character-class policy.

mod opts;
mod process;
mod text;

pub use opts::{
    default_output_name, parse_format, verify_input_file, CsvOpts, FormatError, GenPassOpts, Opts,
    OutputFormat, SubCommand,
};
pub use process::{
    convert_records, lemma_header_only_is_empty, lemma_rows_follow_header, pair_row, process_csv,
    rows_from_records, ConvertError, Row,
};
pub use process::gen_pass::{
    arrange_password, check_policy, generate_password, lemma_draws_meet_policy, process_genpass, CharClass, GenPassError, GeneratedPassword,
    PasswordPolicy,
};
