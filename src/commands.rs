//! Chat commands: parsing a private message into a command, and what the
//! trader does with a command from a given sender.

use crate::text::{parse_u8, parse_u8_spec, split_all, split_text, texts};
use crate::trade::TradeMode;
use crate::trader::Trader;
use vstd::prelude::*;

verus! {

/// A command read from a private message: the first word names it, and the
/// words after it are its arguments.
pub enum Command {
    /// `admin_access`: hand the next trade to the sender.
    AdminAccess,
    /// `announce`: make the announcement now.
    Announce,
    /// `location`: tell the sender where the trader stands.
    Location,
    /// `ori [degrees]`: turn to a heading.
    Orientation { heading: Option<String> },
    /// `price [term]...`: look prices up.
    Price { terms: Vec<String> },
    /// `pos [x] [y] [z]`: move to a position.
    Position { coordinates: Option<(String, String, String)> },
    /// `sort [count]`: sort the inventory once, or `count` times.
    Sort { count: Option<String> },
    /// `take`: the next trade only takes.
    TakeAll,
    /// Anything else.
    Unknown,
}

/// The view of a [`Command`].
pub enum CommandView {
    AdminAccess,
    Announce,
    Location,
    Orientation(Option<Seq<char>>),
    Price(Seq<Seq<char>>),
    Position(Option<(Seq<char>, Seq<char>, Seq<char>)>),
    Sort(Option<Seq<char>>),
    TakeAll,
    Unknown,
}

impl View for Command {
    type V = CommandView;

    open spec fn view(&self) -> CommandView {
        match self {
            Command::AdminAccess => CommandView::AdminAccess,
            Command::Announce => CommandView::Announce,
            Command::Location => CommandView::Location,
            Command::Orientation { heading } => CommandView::Orientation(
                match heading {
                    Some(h) => Some(h@),
                    None => None,
                },
            ),
            Command::Price { terms } => CommandView::Price(texts(terms@)),
            Command::Position { coordinates } => CommandView::Position(
                match coordinates {
                    Some((x, y, z)) => Some((x@, y@, z@)),
                    None => None,
                },
            ),
            Command::Sort { count } => CommandView::Sort(
                match count {
                    Some(c) => Some(c@),
                    None => None,
                },
            ),
            Command::TakeAll => CommandView::TakeAll,
            Command::Unknown => CommandView::Unknown,
        }
    }
}

/// The first argument, if any.
pub open spec fn first_arg(args: Seq<Seq<char>>) -> Option<Seq<char>> {
    if args.len() > 0 {
        Some(args[0])
    } else {
        None
    }
}

/// The command that a message's words hold.
pub open spec fn command_of(words: Seq<Seq<char>>) -> CommandView {
    let verb = words[0];
    let args = words.drop_first();
    if verb == "admin_access"@ {
        CommandView::AdminAccess
    } else if verb == "announce"@ {
        CommandView::Announce
    } else if verb == "location"@ {
        CommandView::Location
    } else if verb == "ori"@ {
        CommandView::Orientation(first_arg(args))
    } else if verb == "price"@ {
        CommandView::Price(args)
    } else if verb == "pos"@ {
        CommandView::Position(
            if args.len() >= 3 {
                Some((args[0], args[1], args[2]))
            } else {
                None
            },
        )
    } else if verb == "sort"@ {
        CommandView::Sort(first_arg(args))
    } else if verb == "take"@ {
        CommandView::TakeAll
    } else {
        CommandView::Unknown
    }
}

fn text_is(s: &String, literal: &str) -> (r: bool)
    ensures
        r == (s@ == literal@),
{
    *s == String::from_str(literal)
}

/// Reads a command from a message whose words are separated by single spaces.
pub fn parse_command(message: &str) -> (r: Command)
    ensures
        r@ == command_of(split_all(message@, ' ')),
{
    let mut words = split_text(message, ' ');
    let ghost w = split_all(message@, ' ');
    proof {
        assert(w.len() > 0) by {
            match crate::text::split_once(message@, ' ') {
                Some((head, tail)) => assert(w[0] == head),
                None => assert(w[0] == message@),
            }
        }
    }
    let verb = words.remove(0);
    assert(texts(words@) =~= w.drop_first());
    if text_is(&verb, "admin_access") {
        Command::AdminAccess
    } else if text_is(&verb, "announce") {
        Command::Announce
    } else if text_is(&verb, "location") {
        Command::Location
    } else if text_is(&verb, "ori") {
        if words.len() > 0 {
            Command::Orientation { heading: Some(words.remove(0)) }
        } else {
            Command::Orientation { heading: None }
        }
    } else if text_is(&verb, "price") {
        Command::Price { terms: words }
    } else if text_is(&verb, "pos") {
        if words.len() >= 3 {
            let x = words.remove(0);
            let y = words.remove(0);
            let z = words.remove(0);
            Command::Position { coordinates: Some((x, y, z)) }
        } else {
            Command::Position { coordinates: None }
        }
    } else if text_is(&verb, "sort") {
        if words.len() > 0 {
            Command::Sort { count: Some(words.remove(0)) }
        } else {
            Command::Sort { count: None }
        }
    } else if text_is(&verb, "take") {
        Command::TakeAll
    } else {
        Command::Unknown
    }
}

/// Which usage hint a correction gives.
#[derive(Clone, Copy, Debug, PartialEq, Eq, Structural)]
pub enum Usage {
    Price,
    Orientation,
    Position,
}

impl Usage {
    /// The hint's text.
    pub fn text(&self) -> (r: &'static str)
        ensures
            r@ == match self {
                Usage::Price => "Use the format 'price [search_term]'"@,
                Usage::Orientation => "Use the format 'ori [0-360]'"@,
                Usage::Position => "Use the format 'pos [x] [y] [z]'."@,
            },
    {
        match self {
            Usage::Price => "Use the format 'price [search_term]'",
            Usage::Orientation => "Use the format 'ori [0-360]'",
            Usage::Position => "Use the format 'pos [x] [y] [z]'.",
        }
    }
}

/// What is left to do for a command once the trader has taken it.
#[derive(Clone, Copy, Debug, PartialEq, Eq, Structural)]
pub enum CommandReply {
    /// Tell the sender how to write a command.
    Correction { usage: Usage },
    /// Invite the sender to trade, first declining the open trade if asked.
    GrantAccess { decline_open_trade: bool },
    /// Invite the sender to trade.
    TakeAll,
    /// A trade is open: nothing changed.
    TradeOpen,
    /// A special trade mode is already on: nothing changed.
    ModeActive,
    /// Make the announcement.
    Announce,
    /// Tell the sender where the trader stands.
    Location,
    /// Turn to the heading of the command.
    Orient,
    /// Move to the position of the command.
    Move,
    /// Look up each of the command's terms.
    Prices,
    /// Sort the inventory once.
    SortOnce,
    /// Repeated sorting was set up.
    SortRepeatedly { count: u8 },
}

/// A command argument that is not a number of the expected kind.
#[derive(Clone, Copy, Debug, PartialEq, Eq, Structural)]
pub struct InvalidNumber;

/// What a command from a sender leads to, in the given mode. Every command but
/// `price` needs an operator; any other sender is corrected as an unknown
/// command would be. Granting access and taking everything start from normal
/// mode only.
pub open spec fn reply_for(c: CommandView, is_admin: bool, trading: bool, mode: TradeMode) -> Result<
    CommandReply,
    InvalidNumber,
> {
    let refused = Ok(CommandReply::Correction { usage: Usage::Price });
    match c {
        CommandView::Price(_) => Ok(CommandReply::Prices),
        CommandView::Unknown => refused,
        _ => if !is_admin {
            refused
        } else {
            match c {
                CommandView::AdminAccess => if mode != TradeMode::Normal {
                    Ok(CommandReply::ModeActive)
                } else {
                    Ok(CommandReply::GrantAccess { decline_open_trade: trading })
                },
                CommandView::Location => Ok(CommandReply::Location),
                CommandView::Announce => Ok(CommandReply::Announce),
                CommandView::Orientation(h) => if h is Some {
                    Ok(CommandReply::Orient)
                } else {
                    Ok(CommandReply::Correction { usage: Usage::Orientation })
                },
                CommandView::Position(p) => if p is Some {
                    Ok(CommandReply::Move)
                } else {
                    Ok(CommandReply::Correction { usage: Usage::Position })
                },
                CommandView::Sort(n) => match n {
                    None => Ok(CommandReply::SortOnce),
                    Some(t) => match parse_u8_spec(t) {
                        Some(k) => Ok(CommandReply::SortRepeatedly { count: k }),
                        None => Err(InvalidNumber),
                    },
                },
                CommandView::TakeAll => if trading {
                    Ok(CommandReply::TradeOpen)
                } else if mode != TradeMode::Normal {
                    Ok(CommandReply::ModeActive)
                } else {
                    Ok(CommandReply::TakeAll)
                },
                _ => refused,
            }
        },
    }
}

impl Trader {
    /// Takes a command from a sender, while a trade is open or not, as
    /// [`reply_for`] defines it in the current mode. Granting access and taking everything change
    /// the mode as [`Trader::grant_admin_access`] and
    /// [`Trader::start_take_all`] do; repeated sorting sets the sort count;
    /// no other command changes the trader.
    pub fn handle_command(&mut self, command: &Command, is_admin: bool, trading: bool) -> (r: Result<
        CommandReply,
        InvalidNumber,
    >)
        requires
            old(self).wf(),
        ensures
            r == reply_for(command@, is_admin, trading, old(self).mode),
            final(self).wf(),
            r matches Ok(CommandReply::GrantAccess { .. }) ==> final(self).mode
                == TradeMode::AdminOverride && final(self).previous is None
                && final(self).receipt is None,
            r matches Ok(CommandReply::TakeAll) ==> final(self).mode == TradeMode::TakeAll
                && final(self).previous is None && final(self).receipt is None,
            !(r matches Ok(CommandReply::GrantAccess { .. })) && !(r matches Ok(
                CommandReply::TakeAll,
            )) ==> final(self).mode == old(self).mode && final(self).previous == old(
                self,
            ).previous && final(self).receipt == old(self).receipt,
            r matches Ok(CommandReply::SortRepeatedly { count }) ==> final(self).sort_count
                == count,
            !(r matches Ok(CommandReply::SortRepeatedly { .. })) ==> final(self).sort_count == old(
                self,
            ).sort_count,
            final(self).admins == old(self).admins,
            final(self).buy_prices == old(self).buy_prices,
            final(self).sell_prices == old(self).sell_prices,
    {
        let refused = Ok(CommandReply::Correction { usage: Usage::Price });
        match command {
            Command::Price { .. } => return Ok(CommandReply::Prices),
            Command::Unknown => return refused,
            _ => {},
        }
        if !is_admin {
            return refused;
        }
        match command {
            Command::Location => Ok(CommandReply::Location),
            Command::AdminAccess => {
                if self.mode != TradeMode::Normal {
                    return Ok(CommandReply::ModeActive);
                }
                self.grant_admin_access();
                Ok(CommandReply::GrantAccess { decline_open_trade: trading })
            },
            Command::Announce => Ok(CommandReply::Announce),
            Command::Orientation { heading } => {
                if heading.is_some() {
                    Ok(CommandReply::Orient)
                } else {
                    Ok(CommandReply::Correction { usage: Usage::Orientation })
                }
            },
            Command::Position { coordinates } => {
                if coordinates.is_some() {
                    Ok(CommandReply::Move)
                } else {
                    Ok(CommandReply::Correction { usage: Usage::Position })
                }
            },
            Command::Sort { count } => match count {
                None => Ok(CommandReply::SortOnce),
                Some(text) => match parse_u8(text.as_str()) {
                    Some(k) => {
                        self.sort_repeatedly(k);
                        Ok(CommandReply::SortRepeatedly { count: k })
                    },
                    None => Err(InvalidNumber),
                },
            },
            Command::TakeAll => {
                if trading {
                    Ok(CommandReply::TradeOpen)
                } else if self.mode != TradeMode::Normal {
                    Ok(CommandReply::ModeActive)
                } else {
                    self.start_take_all();
                    Ok(CommandReply::TakeAll)
                }
            },
            _ => refused,
        }
    }
}

} // verus!
