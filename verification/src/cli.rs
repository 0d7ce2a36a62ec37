//! What the command line asks for.
use vstd::prelude::*;
use crate::config::Platforms;
use vstd::string::{StringExecFns, StringSliceAdditionalSpecFns};
use crate::data::{compose_with, composed, tag_texts};
use crate::number::{parse, parsed_as, Integer, NumberError};

verus! {

impl NumberError {
    /// The error in words.
    pub open spec fn text(self) -> Seq<char> {
        match self {
            NumberError::Empty => "cannot parse integer from empty string"@,
            NumberError::InvalidDigit => "invalid digit found in string"@,
            NumberError::PosOverflow => "number too large to fit in target type"@,
            NumberError::NegOverflow => "number too small to fit in target type"@,
        }
    }

    /// The error in words.
    pub fn message(&self) -> (text: &'static str)
        ensures
            text@ == self.text(),
    {
        match self {
            NumberError::Empty => "cannot parse integer from empty string",
            NumberError::InvalidDigit => "invalid digit found in string",
            NumberError::PosOverflow => "number too large to fit in target type",
            NumberError::NegOverflow => "number too small to fit in target type",
        }
    }
}

/// What is said of a text that was given as a number and is none.
pub open spec fn invalid_number(name: Seq<char>, error: NumberError) -> Seq<char> {
    "Invalid number '"@ + name + "' is supplied. "@ + error.text()
}

///Shortcut to parse integer
///
///The text is read as a number of the type asked for; what does not fit
///the type is refused like what is no number at all.
pub fn parse_int<T: Integer>(name: &str) -> (number: Result<T, String>)
    ensures
        match parsed_as::<T>(name.spec_bytes()) {
            Ok(value) => number matches Ok(read) && read.value() == value,
            Err(error) => number matches Err(complaint) && complaint@ == invalid_number(
                name@,
                error,
            ),
        },
{
    match parse::<T>(name) {
        Ok(value) => Ok(value),
        Err(error) => {
            let mut complaint = String::from_str("Invalid number '");
            complaint.append(name);
            complaint.append("' is supplied. ");
            complaint.append(error.message());
            Err(complaint)
        },
    }
}

/// What was given to a command on the command line.
#[derive(Debug, PartialEq, Eq)]
pub struct Matches {
    /// The message.
    pub message: String,
    /// The tags, where any were given.
    pub tags: Option<Vec<String>>,
    /// The images, where any were given.
    pub images: Option<Vec<String>>,
}

///Command representation with all its arguments.
#[derive(Debug, PartialEq, Eq)]
pub enum Commands {
    ///Creates new tweet.
    ///
    ///# Parameters:
    ///
    ///* First - Text.
    ///* Second - Images to attach.
    Post(String, Option<Vec<String>>),
}

impl Commands {
    /// The command of the given name with what was given to it. The one
    /// command is `post`: its text is put together from the message and the
    /// tags that were given beside it, as every published text is.
    pub fn from_matches(name: &str, matches: Option<Matches>) -> (command: Commands)
        requires
            name@ == "post"@,
            matches is Some,
        ensures
            command matches Commands::Post(text, images) && text@ == composed(
                matches->Some_0.message@,
                tag_texts(matches->Some_0.tags),
            ) && images == matches->Some_0.images,
    {
        let Matches { message, tags, images } = matches.unwrap();
        let text = compose_with(message, &tags);
        Commands::Post(text, images)
    }
}

/// The platforms that the command line chose.
pub type Flags = Platforms;

impl Platforms {
    /// The platforms that the flags of the command line chose, where they
    /// chose any.
    pub fn from_matches(gab: bool, twitter: bool, minds: bool) -> (flags: Option<Platforms>)
        ensures
            flags == if !gab && !twitter && !minds {
                None
            } else {
                Some(Platforms { gab, twitter, minds })
            },
    {
        if !gab && !twitter && !minds {
            None
        } else {
            Some(Platforms { gab, twitter, minds })
        }
    }
}

/// What a run was asked to do.
#[derive(Debug, PartialEq, Eq)]
pub struct Args {
    ///Command to execute
    pub command: Commands,
    /// Platforms to execute it on.
    pub flags: Flags,
}

impl Args {
    /// What a run is to do: the command of the command line, on the
    /// platforms that the command line chose, or on those of the settings
    /// where it chose none.
    pub fn new(platforms: Platforms, command: Commands, chosen: Option<Flags>) -> (args: Result<
        Args,
        String,
    >)
        ensures
            args == Ok::<Args, String>(
                Args {
                    command,
                    flags: match chosen {
                        Some(flags) => flags,
                        None => platforms,
                    },
                },
            ),
    {
        let flags = match chosen {
            Some(flags) => flags,
            None => platforms,
        };
        Ok(Args { command, flags })
    }
}

} // verus!
