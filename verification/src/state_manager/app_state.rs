//! The store of known clients and channels.
//!
//! The store is one value. Whoever shares it between threads guards the whole
//! of it with one lock, so each operation here runs from start to end on a
//! store that nothing else touches.

use crate::ts3_parser::data_parser::{VoiceData, VoiceDataView};
use std::collections::HashMap;
use vstd::prelude::*;

verus! {

broadcast use vstd::std_specs::hash::group_hash_axioms;

/// A connected client.
#[derive(Debug)]
pub struct Client {
    pub id: u16,
    pub channel_id: u16,
    pub nickname: String,
    pub database_id: u64,
    pub unique_id: String,
    /// The voice frame that was decoded last for this client.
    pub last_voice_data: Option<VoiceData>,
}

/// A channel of the server.
#[derive(Debug)]
pub struct Channel {
    pub id: u16,
    pub name: String,
}

/// What a `Client` holds, as plain values.
pub struct ClientView {
    pub id: u16,
    pub channel_id: u16,
    pub nickname: Seq<char>,
    pub database_id: u64,
    pub unique_id: Seq<char>,
    pub last_voice_data: Option<VoiceDataView>,
}

/// What a `Channel` holds, as plain values.
pub struct ChannelView {
    pub id: u16,
    pub name: Seq<char>,
}

impl View for Client {
    type V = ClientView;

    open spec fn view(&self) -> ClientView {
        ClientView {
            id: self.id,
            channel_id: self.channel_id,
            nickname: self.nickname@,
            database_id: self.database_id,
            unique_id: self.unique_id@,
            last_voice_data: match self.last_voice_data {
                Some(v) => Some(v@),
                None => None,
            },
        }
    }
}

impl View for Channel {
    type V = ChannelView;

    open spec fn view(&self) -> ChannelView {
        ChannelView { id: self.id, name: self.name@ }
    }
}

impl Clone for Client {
    fn clone(&self) -> (copy: Self)
        ensures
            copy@ == self@,
    {
        Client {
            id: self.id,
            channel_id: self.channel_id,
            nickname: self.nickname.clone(),
            database_id: self.database_id,
            unique_id: self.unique_id.clone(),
            last_voice_data: match &self.last_voice_data {
                Some(v) => Some(v.clone()),
                None => None,
            },
        }
    }
}

impl Clone for Channel {
    fn clone(&self) -> (copy: Self)
        ensures
            copy@ == self@,
    {
        Channel { id: self.id, name: self.name.clone() }
    }
}

impl Channel {
    /// The channel that the roster lists under `cid` and `name`. The store
    /// keeps the low 16 bits of the roster's id.
    pub fn from_listing(cid: u64, name: String) -> (channel: Channel)
        ensures
            channel.id == cid % 0x1_0000,
            channel.name@ == name@,
    {
        Channel { id: (cid % 0x1_0000) as u16, name }
    }
}

/// The client that stands for an id seen in traffic before the roster has
/// named it.
pub open spec fn placeholder_client(id: u16) -> ClientView {
    ClientView {
        id,
        channel_id: 0,
        nickname: "Unknown"@,
        database_id: 0,
        unique_id: Seq::empty(),
        last_voice_data: None,
    }
}

/// The clients of a list, each as plain values.
pub open spec fn client_list(clients: Seq<Client>) -> Seq<ClientView> {
    clients.map_values(|c: Client| c@)
}

/// The channels of a list, each as plain values.
pub open spec fn channel_list(channels: Seq<Channel>) -> Seq<ChannelView> {
    channels.map_values(|c: Channel| c@)
}

/// The client map that a roster gives: each client under its id, a later
/// entry replacing an earlier one with the same id.
pub open spec fn client_roster(clients: Seq<ClientView>) -> Map<u16, ClientView>
    decreases clients.len(),
{
    if clients.len() == 0 {
        Map::empty()
    } else {
        client_roster(clients.drop_last()).insert(clients.last().id, clients.last())
    }
}

/// The channel map that a roster gives: each channel under its id, a later
/// entry replacing an earlier one with the same id.
pub open spec fn channel_roster(channels: Seq<ChannelView>) -> Map<u16, ChannelView>
    decreases channels.len(),
{
    if channels.len() == 0 {
        Map::empty()
    } else {
        channel_roster(channels.drop_last()).insert(channels.last().id, channels.last())
    }
}

/// The clients of a map, each as plain values.
pub open spec fn client_views(clients: Map<u16, Client>) -> Map<u16, ClientView> {
    clients.map_values(|c: Client| c@)
}

/// The channels of a map, each as plain values.
pub open spec fn channel_views(channels: Map<u16, Channel>) -> Map<u16, ChannelView> {
    channels.map_values(|c: Channel| c@)
}

/// Whether `ids` lists exactly the keys of `keys`, each once and in rising
/// order.
pub open spec fn lists_in_order<V>(ids: Seq<u16>, keys: Map<u16, V>) -> bool {
    &&& forall|id: u16| ids.contains(id) <==> keys.contains_key(id)
    &&& forall|i: int, j: int| 0 <= i < j < ids.len() ==> ids[i] < ids[j]
}

/// The clients and channels that are known.
pub struct AppState {
    clients: HashMap<u16, Client>,
    channels: HashMap<u16, Channel>,
}

/// What an `AppState` holds, as plain values.
pub struct AppStateView {
    pub clients: Map<u16, ClientView>,
    pub channels: Map<u16, ChannelView>,
}

impl AppStateView {
    /// There are finitely many clients and channels, and each of them is
    /// filed under its own id.
    pub open spec fn well_formed(self) -> bool {
        &&& self.clients.dom().finite()
        &&& self.channels.dom().finite()
        &&& forall|id: u16|
            self.clients.contains_key(id) ==> (#[trigger] self.clients[id]).id == id
        &&& forall|id: u16|
            self.channels.contains_key(id) ==> (#[trigger] self.channels[id]).id == id
    }

    /// The store after `id` was seen: a client that is known stays as it is,
    /// one that is not is entered as a placeholder.
    pub open spec fn with_placeholder(self, id: u16) -> AppStateView {
        if self.clients.contains_key(id) {
            self
        } else {
            AppStateView { clients: self.clients.insert(id, placeholder_client(id)), ..self }
        }
    }

    /// The store after a voice frame of client `id` was recorded: the frame
    /// takes the place of the client's last one. Nothing changes for an id
    /// that is not known.
    pub open spec fn with_voice(self, id: u16, voice: VoiceDataView) -> AppStateView {
        if self.clients.contains_key(id) {
            AppStateView {
                clients: self.clients.insert(
                    id,
                    ClientView { last_voice_data: Some(voice), ..self.clients[id] },
                ),
                ..self
            }
        } else {
            self
        }
    }

    /// The store after a voice frame of client `id` was seen in traffic.
    pub open spec fn observe_voice(self, id: u16, voice: VoiceDataView) -> AppStateView {
        self.with_placeholder(id).with_voice(id, voice)
    }

    /// The last voice frame of client `id`, if the client is known and has
    /// one.
    pub open spec fn last_voice(self, id: u16) -> Option<VoiceDataView> {
        if self.clients.contains_key(id) {
            self.clients[id].last_voice_data
        } else {
            None
        }
    }
}

impl View for AppState {
    type V = AppStateView;

    closed spec fn view(&self) -> AppStateView {
        AppStateView {
            clients: client_views(self.clients@),
            channels: channel_views(self.channels@),
        }
    }
}

impl AppState {
    /// An empty store.
    pub fn new() -> (state: Self)
        ensures
            state@.clients == Map::<u16, ClientView>::empty(),
            state@.channels == Map::<u16, ChannelView>::empty(),
            state@.well_formed(),
    {
        let state = Self { clients: HashMap::new(), channels: HashMap::new() };
        assert(state@.clients =~= Map::<u16, ClientView>::empty());
        assert(state@.channels =~= Map::<u16, ChannelView>::empty());
        state
    }

    /// Enters a placeholder for `id` unless the client is known.
    pub fn upsert_client_placeholder(&mut self, id: u16)
        ensures
            final(self)@ == old(self)@.with_placeholder(id),
            old(self)@.well_formed() ==> final(self)@.well_formed(),
    {
        if !self.clients.contains_key(&id) {
            let client = Client {
                id,
                channel_id: 0,
                nickname: "Unknown".to_owned(),
                database_id: 0,
                unique_id: String::new(),
                last_voice_data: None,
            };
            self.clients.insert(id, client);
            assert(self@.clients =~= old(self)@.clients.insert(id, placeholder_client(id)));
        }
    }

    /// Records `voice` as the last voice frame of client `id`, if the client
    /// is known.
    pub fn record_voice(&mut self, id: u16, voice: VoiceData)
        ensures
            final(self)@ == old(self)@.with_voice(id, voice@),
            old(self)@.well_formed() ==> final(self)@.well_formed(),
    {
        match self.clients.remove(&id) {
            Some(client) => {
                let updated = Client { last_voice_data: Some(voice), ..client };
                self.clients.insert(id, updated);
                assert(self@.clients =~= old(self)@.with_voice(id, voice@).clients);
            },
            None => {
                assert(self.clients@ =~= old(self).clients@);
            },
        }
    }

    /// Takes note of a voice frame of client `id` that was seen in traffic:
    /// enters a placeholder if the client is not known, then records the
    /// frame as the client's last.
    pub fn observe_voice(&mut self, id: u16, voice: VoiceData)
        ensures
            final(self)@ == old(self)@.observe_voice(id, voice@),
            old(self)@.well_formed() ==> final(self)@.well_formed(),
    {
        self.upsert_client_placeholder(id);
        self.record_voice(id, voice);
    }

    /// Replaces all clients and all channels by those of a roster. Both maps
    /// change in this one step.
    pub fn replace_all(&mut self, clients: Vec<Client>, channels: Vec<Channel>)
        ensures
            final(self)@.clients == client_roster(client_list(clients@)),
            final(self)@.channels == channel_roster(channel_list(channels@)),
            final(self)@.well_formed(),
    {
        let mut new_clients: HashMap<u16, Client> = HashMap::new();
        let mut i: usize = 0;
        let ghost listed = client_list(clients@);
        assert(client_views(new_clients@) =~= client_roster(listed.subrange(0, 0)));
        while i < clients.len()
            invariant
                i <= clients.len(),
                listed == client_list(clients@),
                client_views(new_clients@) == client_roster(listed.subrange(0, i as int)),
                forall|id: u16|
                    new_clients@.contains_key(id) ==> (#[trigger] new_clients@[id]).id == id,
            decreases clients.len() - i,
        {
            let client = clients[i].clone();
            let ghost before = new_clients@;
            new_clients.insert(client.id, client);
            proof {
                let upto = listed.subrange(0, i + 1);
                assert(upto.drop_last() =~= listed.subrange(0, i as int));
                assert(upto.last() == clients@[i as int]@);
                assert(client_views(new_clients@) =~= client_views(before).insert(
                    client.id,
                    client@,
                ));
            }
            i += 1;
        }
        let mut new_channels: HashMap<u16, Channel> = HashMap::new();
        let mut j: usize = 0;
        let ghost named = channel_list(channels@);
        assert(channel_views(new_channels@) =~= channel_roster(named.subrange(0, 0)));
        while j < channels.len()
            invariant
                j <= channels.len(),
                named == channel_list(channels@),
                channel_views(new_channels@) == channel_roster(named.subrange(0, j as int)),
                forall|id: u16|
                    new_channels@.contains_key(id) ==> (#[trigger] new_channels@[id]).id == id,
            decreases channels.len() - j,
        {
            let channel = channels[j].clone();
            let ghost before = new_channels@;
            new_channels.insert(channel.id, channel);
            proof {
                let upto = named.subrange(0, j + 1);
                assert(upto.drop_last() =~= named.subrange(0, j as int));
                assert(upto.last() == channels@[j as int]@);
                assert(channel_views(new_channels@) =~= channel_views(before).insert(
                    channel.id,
                    channel@,
                ));
            }
            j += 1;
        }
        assert(listed.subrange(0, clients@.len() as int) =~= listed);
        assert(named.subrange(0, channels@.len() as int) =~= named);
        *self = AppState { clients: new_clients, channels: new_channels };
        proof {
            lemma_store_is_finite(*self);
        }
    }

    /// The ids of the clients that are known at this moment, in rising order.
    pub fn snapshot_client_ids(&self) -> (ids: Vec<u16>)
        ensures
            lists_in_order(ids@, self@.clients),
    {
        let mut ids: Vec<u16> = Vec::new();
        let mut next: u32 = 0;
        while next <= 0xFFFF
            invariant
                next <= 0x1_0000,
                forall|id: u16|
                    ids@.contains(id) <==> id < next && self.clients@.contains_key(id),
                forall|i: int, j: int| 0 <= i < j < ids@.len() ==> ids@[i] < ids@[j],
            decreases 0x1_0000 - next,
        {
            let id: u16 = next as u16;
            if self.clients.contains_key(&id) {
                let ghost before = ids@;
                ids.push(id);
                assert forall|k: u16|
                    ids@.contains(k) <==> k < next + 1 && self.clients@.contains_key(k) by {
                    if before.contains(k) {
                        let at = choose|at: int| 0 <= at < before.len() && before[at] == k;
                        assert(ids@[at] == k);
                    }
                    if k == id {
                        assert(ids@[before.len() as int] == k);
                    }
                }
                assert forall|i: int, j: int| 0 <= i < j < ids@.len() implies ids@[i] < ids@[j] by {
                    if j == before.len() {
                        assert(before.contains(before[i]));
                    }
                }
            }
            next += 1;
        }
        ids
    }

    /// The number of clients that are known.
    pub fn client_count(&self) -> (count: usize)
        ensures
            count == self@.clients.len(),
    {
        assert(self@.clients.dom() =~= self.clients@.dom());
        self.clients.len()
    }

    /// The number of channels that are known.
    pub fn channel_count(&self) -> (count: usize)
        ensures
            count == self@.channels.len(),
    {
        assert(self@.channels.dom() =~= self.channels@.dom());
        self.channels.len()
    }

    /// A copy of client `id`, if it is known.
    pub fn client(&self, id: u16) -> (client: Option<Client>)
        ensures
            client is Some <==> self@.clients.contains_key(id),
            client matches Some(c) ==> c@ == self@.clients[id],
    {
        match self.clients.get(&id) {
            Some(c) => Some(c.clone()),
            None => None,
        }
    }

    /// A copy of channel `id`, if it is known.
    pub fn channel(&self, id: u16) -> (channel: Option<Channel>)
        ensures
            channel is Some <==> self@.channels.contains_key(id),
            channel matches Some(c) ==> c@ == self@.channels[id],
    {
        match self.channels.get(&id) {
            Some(c) => Some(c.clone()),
            None => None,
        }
    }

    /// A copy of the last voice frame of client `id`, if the client is known
    /// and has one.
    pub fn last_voice_data(&self, id: u16) -> (voice: Option<VoiceData>)
        ensures
            match voice {
                Some(v) => self@.last_voice(id) == Some(v@),
                None => self@.last_voice(id) is None,
            },
    {
        match self.clients.get(&id) {
            Some(c) => match &c.last_voice_data {
                Some(v) => Some(v.clone()),
                None => None,
            },
            None => None,
        }
    }
}

/// A store holds finitely many clients and channels, whatever was done to
/// it.
pub proof fn lemma_store_is_finite(state: AppState)
    ensures
        state@.clients.dom().finite(),
        state@.channels.dom().finite(),
{
    assert(state@.clients.dom() =~= state.clients@.dom());
    assert(state@.channels.dom() =~= state.channels@.dom());
}

/// The first voice frame of a client that is not known enters exactly one
/// client, a placeholder in channel 0 that holds the frame, and leaves every
/// other client and all channels as they were.
pub proof fn lemma_first_voice_enters_one_placeholder(
    state: AppStateView,
    id: u16,
    voice: VoiceDataView,
)
    requires
        state.clients.dom().finite(),
        !state.clients.contains_key(id),
    ensures
        ({
            let after = state.observe_voice(id, voice);
            &&& after.clients.dom() == state.clients.dom().insert(id)
            &&& after.clients.len() == state.clients.len() + 1
            &&& after.clients[id] == (ClientView {
                last_voice_data: Some(voice),
                ..placeholder_client(id)
            })
            &&& after.clients[id].channel_id == 0
            &&& forall|other: u16|
                other != id && state.clients.contains_key(other) ==> after.clients[other]
                    == state.clients[other]
            &&& after.channels == state.channels
        }),
{
    let after = state.observe_voice(id, voice);
    assert(after.clients.dom() =~= state.clients.dom().insert(id));
}

/// A voice frame of a client that is known enters no client: it takes the
/// place of that client's last frame and changes nothing else.
pub proof fn lemma_voice_of_known_client(state: AppStateView, id: u16, voice: VoiceDataView)
    requires
        state.clients.contains_key(id),
    ensures
        ({
            let after = state.observe_voice(id, voice);
            &&& after.clients.dom() == state.clients.dom()
            &&& after.clients[id] == (ClientView {
                last_voice_data: Some(voice),
                ..state.clients[id]
            })
            &&& forall|other: u16|
                other != id && state.clients.contains_key(other) ==> after.clients[other]
                    == state.clients[other]
            &&& after.channels == state.channels
        }),
{
    let after = state.observe_voice(id, voice);
    assert(after.clients.dom() =~= state.clients.dom());
}

/// Of two voice frames of one client only the later one is kept: the store
/// is as if the earlier one had never been seen.
pub proof fn lemma_last_voice_wins(
    state: AppStateView,
    id: u16,
    earlier: VoiceDataView,
    later: VoiceDataView,
)
    ensures
        state.observe_voice(id, earlier).observe_voice(id, later) == state.observe_voice(
            id,
            later,
        ),
        state.observe_voice(id, later).last_voice(id) == Some(later),
{
    let twice = state.observe_voice(id, earlier).observe_voice(id, later);
    let once = state.observe_voice(id, later);
    assert(twice.clients =~= once.clients);
}

/// Seeing a client or a voice frame keeps every entry of the store under its
/// own id, and a roster files every entry under its own id.
pub proof fn lemma_entries_stay_under_their_ids(
    state: AppStateView,
    id: u16,
    voice: VoiceDataView,
    clients: Seq<ClientView>,
    channels: Seq<ChannelView>,
)
    ensures
        state.well_formed() ==> state.with_placeholder(id).well_formed(),
        state.well_formed() ==> state.with_voice(id, voice).well_formed(),
        state.well_formed() ==> state.observe_voice(id, voice).well_formed(),
        (AppStateView {
            clients: client_roster(clients),
            channels: channel_roster(channels),
        }).well_formed(),
{
    lemma_client_roster_by_id(clients);
    lemma_channel_roster_by_id(channels);
}

/// A roster's client map is finite and holds each client under its own id.
proof fn lemma_client_roster_by_id(clients: Seq<ClientView>)
    ensures
        client_roster(clients).dom().finite(),
        forall|id: u16|
            client_roster(clients).contains_key(id) ==> (#[trigger] client_roster(
                clients,
            )[id]).id == id,
    decreases clients.len(),
{
    if clients.len() > 0 {
        let before = client_roster(clients.drop_last());
        lemma_client_roster_by_id(clients.drop_last());
        assert(client_roster(clients) == before.insert(clients.last().id, clients.last()));
        assert forall|id: u16| client_roster(clients).contains_key(id) implies (
        #[trigger] client_roster(clients)[id]).id == id by {
            if id != clients.last().id {
                assert(before.contains_key(id));
                assert(before[id].id == id);
            }
        }
    }
}

/// A roster's channel map is finite and holds each channel under its own id.
proof fn lemma_channel_roster_by_id(channels: Seq<ChannelView>)
    ensures
        channel_roster(channels).dom().finite(),
        forall|id: u16|
            channel_roster(channels).contains_key(id) ==> (#[trigger] channel_roster(
                channels,
            )[id]).id == id,
    decreases channels.len(),
{
    if channels.len() > 0 {
        let before = channel_roster(channels.drop_last());
        lemma_channel_roster_by_id(channels.drop_last());
        assert(channel_roster(channels) == before.insert(channels.last().id, channels.last()));
        assert forall|id: u16| channel_roster(channels).contains_key(id) implies (
        #[trigger] channel_roster(channels)[id]).id == id by {
            if id != channels.last().id {
                assert(before.contains_key(id));
                assert(before[id].id == id);
            }
        }
    }
}

} // verus!
