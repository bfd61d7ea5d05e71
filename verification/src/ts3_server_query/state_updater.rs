//! Takes a roster that was fetched over into the store.

use crate::state_manager::app_state::{
    channel_list, channel_roster, client_list, client_roster, AppState, Channel, ClientView,
};
use crate::ts3_server_query::client_parser::{client_of_line, parse_clients};
use vstd::prelude::*;

verus! {

/// The clients that the lines of a client list describe.
pub open spec fn clients_of_lines(lines: Seq<String>) -> Seq<ClientView> {
    lines.map_values(|line: String| client_of_line(line@))
}

/// Brings the store up to date with one cycle of the roster query: the lines
/// of the client list, and the channels where the channel list could be had.
/// With both at hand all clients and all channels are replaced. Without the
/// channels the cycle is given up and the store stays as it is.
pub fn update_state(
    app_state: &mut AppState,
    response: Vec<String>,
    channels: Option<Vec<Channel>>,
) -> (updated: bool)
    ensures
        updated == channels is Some,
        channels matches Some(listed) ==> {
            &&& final(app_state)@.clients == client_roster(clients_of_lines(response@))
            &&& final(app_state)@.channels == channel_roster(channel_list(listed@))
            &&& final(app_state)@.well_formed()
        },
        channels is None ==> final(app_state)@ == old(app_state)@,
{
    match channels {
        Some(listed) => {
            let clients = parse_clients(response);
            assert(client_list(clients@) =~= clients_of_lines(response@));
            app_state.replace_all(clients, listed);
            true
        },
        None => false,
    }
}

} // verus!
