//! What the framing of a connection keeps of the session.

use vstd::prelude::*;
use vstd::hash_map::StringHashMap;
use crate::pgtype::Type;

verus! {

/// What the framing of a connection has to know of the session in order to
/// decode the frontend's bytes: whether start-up is over, and the parameter
/// types of each prepared statement, by the statement's name.
pub struct Channel {
    pub start_up_complete: bool,
    pub statement_param_types: StringHashMap<Vec<Type>>,
}

pub struct ChannelView {
    pub start_up_complete: bool,
    pub statement_param_types: Map<Seq<char>, Seq<Type>>,
}

impl View for Channel {
    type V = ChannelView;

    open spec fn view(&self) -> ChannelView {
        ChannelView {
            start_up_complete: self.start_up_complete,
            statement_param_types: self.statement_param_types@.map_values(|v: Vec<Type>| v@),
        }
    }
}

impl ChannelView {
    pub open spec fn with_start_up_complete(self) -> ChannelView {
        ChannelView { start_up_complete: true, ..self }
    }

    pub open spec fn with_statement_param_types(
        self,
        name: Seq<char>,
        types: Seq<Type>,
    ) -> ChannelView {
        ChannelView {
            statement_param_types: self.statement_param_types.insert(name, types),
            ..self
        }
    }

    pub open spec fn without_statement_param_types(self, name: Seq<char>) -> ChannelView {
        ChannelView { statement_param_types: self.statement_param_types.remove(name), ..self }
    }
}

impl Channel {
    /// The framing state of a fresh connection.
    pub fn new() -> (channel: Channel)
        ensures
            channel@ == (ChannelView {
                start_up_complete: false,
                statement_param_types: Map::empty(),
            }),
    {
        let channel = Channel {
            start_up_complete: false,
            statement_param_types: StringHashMap::new(),
        };
        assert(channel@.statement_param_types =~= Map::empty());
        channel
    }

    /// Records that start-up is over, after which requests are framed as
    /// regular messages.
    pub fn set_start_up_complete(&mut self)
        ensures
            final(self)@ == old(self)@.with_start_up_complete(),
    {
        self.start_up_complete = true;
    }

    /// Records the parameter types of the statement `name`.
    pub fn set_statement_param_types(&mut self, name: &str, types: Vec<Type>)
        ensures
            final(self)@ == old(self)@.with_statement_param_types(name@, types@),
    {
        self.statement_param_types.insert(name.to_owned(), types);
        assert(self@.statement_param_types =~= old(self)@.statement_param_types.insert(
            name@,
            types@,
        ));
    }

    /// Forgets the parameter types of the statement `name`.
    pub fn clear_statement_param_types(&mut self, name: &str)
        ensures
            final(self)@ == old(self)@.without_statement_param_types(name@),
    {
        self.statement_param_types.remove(name);
        assert(self@.statement_param_types =~= old(self)@.statement_param_types.remove(name@));
    }

    pub fn is_start_up_complete(&self) -> (complete: bool)
        ensures
            complete == self@.start_up_complete,
    {
        self.start_up_complete
    }

    /// The parameter types recorded for the statement `name`, if any.
    pub fn statement_param_types(&self, name: &str) -> (types: Option<&Vec<Type>>)
        ensures
            match types {
                Some(t) => self@.statement_param_types.contains_key(name@)
                    && self@.statement_param_types[name@] == t@,
                None => !self@.statement_param_types.contains_key(name@),
            },
    {
        self.statement_param_types.get(name)
    }
}

} // verus!
