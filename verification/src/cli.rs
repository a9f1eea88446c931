//! The arguments of the commands.

use crate::dumping::{format_of_extension, path_extension, raw_file_format, RawFormat};
use vstd::prelude::*;

verus! {

/// Arguments of the command that dumps received data to disk.
#[derive(Debug, Clone)]
pub struct Dump {
    /// The port name.
    pub port: String,
    /// The baud rate.
    pub baud: u32,
    /// The file in which to store raw data.
    pub raw: Option<String>,
    /// The directory in which to store data.
    pub dir: String,
}

/// Arguments of the command that analyzes dumped data.
#[derive(Debug, Clone)]
pub struct AnalyzeDump {
    /// The directory from which to read data.
    pub dir: String,
    /// The directory to which to write results.
    pub output: Option<String>,
}

impl Dump {
    /// The format of the file of raw data, where one is asked for.
    pub fn raw_format(&self) -> (format: Option<RawFormat>)
        ensures
            format == (match self.raw {
                Some(path) => Some(format_of_extension(path_extension(path@))),
                None => None,
            }),
    {
        match &self.raw {
            Some(path) => Some(raw_file_format(path.as_str())),
            None => None,
        }
    }
}

impl AnalyzeDump {
    /// The directory that receives the results: the configured one, or the
    /// input directory where none was given.
    pub fn output_dir(self) -> (dir: String)
        ensures
            dir == (match self.output {
                Some(output) => output,
                None => self.dir,
            }),
    {
        match self.output {
            Some(output) => output,
            None => self.dir,
        }
    }
}

} // verus!
