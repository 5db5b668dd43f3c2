//! The commands of the console: `show`, `move <speed> <rudder>`, and `user`
//! with or without an address.

use vstd::prelude::*;

verus! {

/// What a line of the console asks for. Numbers and addresses are still
/// words here; the caller reads them.
pub enum Command {
    /// Print the status.
    Show,
    /// Drive at the speed and the rudder that the two words name.
    Move(String, String),
    /// Send the frames of the range finders to the address that the word
    /// names, or to nobody.
    User(Option<String>),
}

/// What a line of the console asks for, with the words as sequences of
/// characters.
pub enum Asked {
    Show,
    Move(Seq<char>, Seq<char>),
    User(Option<Seq<char>>),
}

impl Command {
    /// The command with its words as sequences of characters.
    pub open spec fn view(&self) -> Asked {
        match self {
            Command::Show => Asked::Show,
            Command::Move(speed, rudder) => Asked::Move(speed@, rudder@),
            Command::User(Some(address)) => Asked::User(Some(address@)),
            Command::User(None) => Asked::User(None),
        }
    }
}

/// What the words of a line ask for: the first word names the command, and
/// the command counts only with the number of words that belong to it.
pub open spec fn asked(words: Seq<Seq<char>>) -> Option<Asked> {
    if words.len() == 0 {
        None
    } else if words[0] == "show"@ {
        if words.len() == 1 {
            Some(Asked::Show)
        } else {
            None
        }
    } else if words[0] == "move"@ {
        if words.len() == 3 {
            Some(Asked::Move(words[1], words[2]))
        } else {
            None
        }
    } else if words[0] == "user"@ {
        if words.len() == 1 {
            Some(Asked::User(None))
        } else if words.len() == 2 {
            Some(Asked::User(Some(words[1])))
        } else {
            None
        }
    } else {
        None
    }
}

/// The words of a line as sequences of characters.
pub open spec fn spelled(words: Seq<String>) -> Seq<Seq<char>> {
    Seq::new(words.len(), |i: int| words[i]@)
}

/// What the words of a line ask for; nothing if they are no command.
pub fn command(words: &Vec<String>) -> (r: Option<Command>)
    ensures
        match r {
            Some(c) => asked(spelled(words@)) == Some(c@),
            None => asked(spelled(words@)) is None,
        },
{
    if words.len() == 0 {
        return None;
    }
    let show = "show".to_string();
    let drive = "move".to_string();
    let user = "user".to_string();
    if words[0] == show {
        if words.len() == 1 {
            Some(Command::Show)
        } else {
            None
        }
    } else if words[0] == drive {
        if words.len() == 3 {
            Some(Command::Move(words[1].clone(), words[2].clone()))
        } else {
            None
        }
    } else if words[0] == user {
        if words.len() == 1 {
            Some(Command::User(None))
        } else if words.len() == 2 {
            Some(Command::User(Some(words[1].clone())))
        } else {
            None
        }
    } else {
        None
    }
}

} // verus!
