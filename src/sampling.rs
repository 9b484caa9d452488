use vstd::prelude::*;

use crate::error::ErrorReturnCode;

verus! {

/// The role of a sampling port: a source only writes, a destination only reads.
#[derive(Debug, Clone, Copy, PartialEq, Eq, Structural)]
pub enum PortDirection {
    Source,
    Destination,
}

/// Whether a message read from a port is younger than the port's refresh period.
#[derive(Debug, Clone, Copy, PartialEq, Eq, Structural)]
pub enum Validity {
    Valid,
    Invalid,
}

/// A sampling port of the partition's static configuration. `channel` names
/// the single-slot channel that the port writes to or reads from.
#[derive(Debug, Clone)]
pub struct SamplingPortConfig {
    pub name: String,
    pub dir: PortDirection,
    pub msg_size: usize,
    pub channel: usize,
}

/// A registered port: the index of its configuration, and its refresh period
/// in nanoseconds.
#[derive(Debug, Clone, Copy, PartialEq, Eq, Structural)]
pub struct PortEntry {
    pub config: usize,
    pub refresh: u64,
}

/// The message that a channel holds, and the time at which it was written.
#[derive(Debug, Clone)]
pub struct StoredMessage {
    pub data: Vec<u8>,
    pub written_at: u64,
}

/// The configuration of a port as a mathematical value.
pub ghost struct ConfigModel {
    pub name: Seq<char>,
    pub dir: PortDirection,
    pub msg_size: nat,
    pub channel: nat,
}

/// The state of the sampling ports as a mathematical value.
pub ghost struct PortsModel {
    pub configs: Seq<ConfigModel>,
    pub ports: Seq<PortEntry>,
    pub capacity: nat,
    pub channels: Seq<Option<(Seq<u8>, u64)>>,
}

/// The sampling ports of a partition: the static configuration, the ports
/// registered so far in order of registration (the port id is the position,
/// counted from one), their bound, and the channels with their latest message.
pub struct SamplingPorts {
    pub configs: Vec<SamplingPortConfig>,
    pub ports: Vec<PortEntry>,
    pub capacity: u32,
    pub channels: Vec<Option<StoredMessage>>,
}

impl SamplingPortConfig {
    pub open spec fn model(&self) -> ConfigModel {
        ConfigModel {
            name: self.name@,
            dir: self.dir,
            msg_size: self.msg_size as nat,
            channel: self.channel as nat,
        }
    }
}

pub open spec fn stored_model(s: Option<StoredMessage>) -> Option<(Seq<u8>, u64)> {
    match s {
        Some(m) => Some((m.data@, m.written_at)),
        None => None,
    }
}

impl View for SamplingPorts {
    type V = PortsModel;

    open spec fn view(&self) -> PortsModel {
        PortsModel {
            configs: self.configs@.map_values(|c: SamplingPortConfig| c.model()),
            ports: self.ports@,
            capacity: self.capacity as nat,
            channels: self.channels@.map_values(|s: Option<StoredMessage>| stored_model(s)),
        }
    }
}

/// The first configuration, from position `i` on, whose name is `name`.
pub open spec fn index_from(configs: Seq<ConfigModel>, name: Seq<char>, i: nat) -> Option<nat>
    decreases configs.len() - i,
{
    if i >= configs.len() {
        None
    } else if configs[i as int].name == name {
        Some(i)
    } else {
        index_from(configs, name, i + 1)
    }
}

/// How old a message written at `written` is at time `now`.
pub open spec fn age(now: u64, written: u64) -> nat {
    if now >= written {
        (now - written) as nat
    } else {
        0
    }
}

/// A message is valid while its age is at most the refresh period.
pub open spec fn validity_of(now: u64, written: u64, refresh: u64) -> Validity {
    if age(now, written) <= refresh {
        Validity::Valid
    } else {
        Validity::Invalid
    }
}

/// The buffer `buf` after the message `msg` was copied into its front, as far
/// as it fits.
pub open spec fn copied(buf: Seq<u8>, msg: Seq<u8>) -> Seq<u8> {
    Seq::new(buf.len(), |i: int| if i < msg.len() { msg[i] } else { buf[i] })
}

impl PortsModel {
    pub open spec fn wf(self) -> bool {
        &&& self.ports.len() <= self.capacity
        &&& forall|i: int| 0 <= i < self.ports.len() ==> self.ports[i].config < self.configs.len()
        &&& forall|i: int| 0 <= i < self.ports.len() ==> self.ports[i].refresh > 0
        &&& forall|c: int|
            0 <= c < self.configs.len() ==> self.configs[c].channel < self.channels.len()
    }

    pub open spec fn valid_id(self, id: i64) -> bool {
        1 <= id <= self.ports.len()
    }

    /// The registered port with id `id`.
    pub open spec fn entry(self, id: i64) -> PortEntry {
        self.ports[id - 1]
    }

    /// The configuration of the port with id `id`.
    pub open spec fn config_of(self, id: i64) -> ConfigModel {
        self.configs[self.entry(id).config as int]
    }

    /// What a request to register a port answers.
    pub open spec fn create_outcome(
        self,
        name: Seq<char>,
        dir: PortDirection,
        refresh_period: i64,
    ) -> Result<i64, ErrorReturnCode> {
        if refresh_period <= 0 {
            Err(ErrorReturnCode::InvalidConfig)
        } else {
            match index_from(self.configs, name, 0) {
                None => Err(ErrorReturnCode::InvalidConfig),
                Some(i) => if self.configs[i as int].dir != dir {
                    Err(ErrorReturnCode::InvalidConfig)
                } else if self.ports.len() >= self.capacity as usize {
                    Err(ErrorReturnCode::InvalidConfig)
                } else {
                    Ok((self.ports.len() + 1) as i64)
                },
            }
        }
    }

    /// The state after a successful registration.
    pub open spec fn after_create(self, name: Seq<char>, refresh_period: i64) -> PortsModel {
        PortsModel {
            ports: self.ports.push(
                PortEntry {
                    config: index_from(self.configs, name, 0)->Some_0 as usize,
                    refresh: refresh_period as u64,
                },
            ),
            ..self
        }
    }

    /// What a request to write a message of `len` bytes answers.
    pub open spec fn write_outcome(self, id: i64, len: nat) -> Result<(), ErrorReturnCode> {
        if !self.valid_id(id) {
            Err(ErrorReturnCode::InvalidParam)
        } else if len > self.config_of(id).msg_size {
            Err(ErrorReturnCode::InvalidConfig)
        } else if len == 0 {
            Err(ErrorReturnCode::InvalidParam)
        } else if self.config_of(id).dir != PortDirection::Source {
            Err(ErrorReturnCode::InvalidMode)
        } else {
            Ok(())
        }
    }

    /// The state after `msg` was written at `now` through the port `id`.
    pub open spec fn after_write(self, id: i64, msg: Seq<u8>, now: u64) -> PortsModel {
        PortsModel {
            channels: self.channels.update(self.config_of(id).channel as int, Some((msg, now))),
            ..self
        }
    }

    /// The message that the channel of port `id` holds.
    pub open spec fn stored(self, id: i64) -> Option<(Seq<u8>, u64)> {
        self.channels[self.config_of(id).channel as int]
    }

    /// What a request to read through port `id` into a buffer of `buf_len`
    /// bytes at time `now` answers, where the port's channel holds `stored`:
    /// the validity and the full length of that message.
    pub open spec fn read_outcome_given(
        self,
        id: i64,
        buf_len: nat,
        now: u64,
        stored: Option<(Seq<u8>, u64)>,
    ) -> Result<(Validity, usize), ErrorReturnCode> {
        if !self.valid_id(id) {
            Err(ErrorReturnCode::InvalidParam)
        } else if buf_len == 0 {
            Err(ErrorReturnCode::InvalidParam)
        } else if self.config_of(id).dir != PortDirection::Destination {
            Err(ErrorReturnCode::InvalidMode)
        } else {
            match stored {
                None => Err(ErrorReturnCode::NoAction),
                Some((msg, written)) => Ok(
                    (validity_of(now, written, self.entry(id).refresh), msg.len() as usize),
                ),
            }
        }
    }

    /// What a request to read through port `id` into a buffer of `buf_len`
    /// bytes at time `now` answers, from the message that its channel holds.
    pub open spec fn read_outcome(self, id: i64, buf_len: nat, now: u64) -> Result<
        (Validity, usize),
        ErrorReturnCode,
    > {
        self.read_outcome_given(id, buf_len, now, self.stored(id))
    }
}

impl SamplingPorts {
    /// Sets up the ports of a partition over `channel_count` empty channels,
    /// with room for `capacity` registrations; `None` where a configuration
    /// names a channel that does not exist.
    pub fn new(configs: Vec<SamplingPortConfig>, capacity: u32, channel_count: usize) -> (r:
        Option<SamplingPorts>)
        ensures
            r is Some <==> forall|c: int|
                0 <= c < configs@.len() ==> configs@[c].channel < channel_count,
            r matches Some(p) ==> {
                &&& p@.wf()
                &&& p@.configs == configs@.map_values(|c: SamplingPortConfig| c.model())
                &&& p@.ports.len() == 0
                &&& p@.capacity == capacity
                &&& p@.channels == Seq::new(channel_count as nat, |i: int| None::<(Seq<u8>, u64)>)
            },
    {
        let mut k: usize = 0;
        while k < configs.len()
            invariant
                k <= configs@.len(),
                forall|c: int| 0 <= c < k ==> configs@[c].channel < channel_count,
            decreases configs@.len() - k,
        {
            if configs[k].channel >= channel_count {
                return None;
            }
            k = k + 1;
        }
        let mut channels: Vec<Option<StoredMessage>> = Vec::new();
        let mut n: usize = 0;
        while n < channel_count
            invariant
                n <= channel_count,
                channels@.len() == n,
                forall|i: int| 0 <= i < n ==> channels@[i] is None,
            decreases channel_count - n,
        {
            channels.push(None);
            n = n + 1;
        }
        let r = SamplingPorts { configs, ports: Vec::new(), capacity, channels };
        assert(r@.channels =~= Seq::new(channel_count as nat, |i: int| None::<(Seq<u8>, u64)>));
        Some(r)
    }

    /// Registers the configured port `name` with direction `dir`; a message
    /// read through it is valid for `refresh_period` nanoseconds. Answers the
    /// id of the new port, counted from one.
    pub fn create_sampling_port(
        &mut self,
        name: &str,
        dir: PortDirection,
        refresh_period: i64,
    ) -> (r: Result<i64, ErrorReturnCode>)
        requires
            old(self)@.wf(),
        ensures
            final(self)@.wf(),
            r == old(self)@.create_outcome(name@, dir, refresh_period),
            r is Ok ==> final(self)@ == old(self)@.after_create(name@, refresh_period),
            r is Err ==> final(self)@ == old(self)@,
    {
        if refresh_period <= 0 {
            return Err(ErrorReturnCode::InvalidConfig);
        }
        let wanted = name.to_owned();
        let ghost cfgs = self@.configs;
        let mut i: usize = 0;
        while i < self.configs.len()
            invariant
                i <= self.configs@.len(),
                cfgs == self@.configs,
                self@ == old(self)@,
                self@.wf(),
                refresh_period > 0,
                wanted@ == name@,
                index_from(cfgs, name@, 0) == index_from(cfgs, name@, i as nat),
            decreases self.configs@.len() - i,
        {
            if self.configs[i].name == wanted {
                assert(cfgs[i as int] == self.configs@[i as int].model());
                assert(index_from(cfgs, name@, i as nat) == Some(i as nat));
                if self.configs[i].dir != dir {
                    return Err(ErrorReturnCode::InvalidConfig);
                }
                if self.ports.len() >= self.capacity as usize {
                    return Err(ErrorReturnCode::InvalidConfig);
                }
                self.ports.push(PortEntry { config: i, refresh: refresh_period as u64 });
                assert(self@ =~= old(self)@.after_create(name@, refresh_period));
                return Ok(self.ports.len() as i64);
            }
            i = i + 1;
        }
        Err(ErrorReturnCode::InvalidConfig)
    }

    /// Writes `message` at time `now` through the port `port_id`. The
    /// channel keeps only this message: any earlier one is overwritten.
    pub fn write_sampling_message(&mut self, port_id: i64, message: &[u8], now: u64) -> (r: Result<
        (),
        ErrorReturnCode,
    >)
        requires
            old(self)@.wf(),
        ensures
            final(self)@.wf(),
            r == old(self)@.write_outcome(port_id, message@.len()),
            r is Ok ==> final(self)@ == old(self)@.after_write(port_id, message@, now),
            r is Err ==> final(self)@ == old(self)@,
    {
        if port_id < 1 || port_id as u64 > self.ports.len() as u64 {
            return Err(ErrorReturnCode::InvalidParam);
        }
        let entry = self.ports[(port_id - 1) as usize];
        let config = &self.configs[entry.config];
        assert(config.model() == self@.config_of(port_id));
        if message.len() > config.msg_size {
            return Err(ErrorReturnCode::InvalidConfig);
        } else if message.len() == 0 {
            return Err(ErrorReturnCode::InvalidParam);
        } else if config.dir != PortDirection::Source {
            return Err(ErrorReturnCode::InvalidMode);
        }
        let channel = config.channel;
        let data = vstd::slice::slice_to_vec(message);
        self.channels.set(channel, Some(StoredMessage { data, written_at: now }));
        assert(self@.channels =~= old(self)@.channels.update(
            channel as int,
            Some((message@, now)),
        ));
        assert(self@ =~= old(self)@.after_write(port_id, message@, now));
        Ok(())
    }

    /// Reads the latest message of the channel of port `port_id` at time
    /// `now`. The message is copied into the front of `buffer`, as far as it
    /// fits; the answer is its validity and its full length. A stale message
    /// is still handed out, marked invalid.
    pub fn read_sampling_message(&self, port_id: i64, buffer: &mut Vec<u8>, now: u64) -> (r: Result<
        (Validity, usize),
        ErrorReturnCode,
    >)
        requires
            self@.wf(),
        ensures
            r == self@.read_outcome(port_id, old(buffer)@.len(), now),
            r is Ok ==> final(buffer)@ == copied(old(buffer)@, self@.stored(port_id)->Some_0.0),
            r is Err ==> final(buffer)@ == old(buffer)@,
    {
        if port_id < 1 || port_id as u64 > self.ports.len() as u64 {
            return Err(ErrorReturnCode::InvalidParam);
        }
        let entry = self.ports[(port_id - 1) as usize];
        let channel = self.configs[entry.config].channel;
        assert(self@.stored(port_id) == stored_model(self.channels@[channel as int]));
        self.read_stored(port_id, &self.channels[channel], buffer, now)
    }

    /// Reads through port `port_id` at time `now` the message `stored`, as
    /// the port's channel was found to hold it: the checks and the answer of
    /// `read_sampling_message`, for a channel kept outside these ports.
    pub fn read_stored(
        &self,
        port_id: i64,
        stored: &Option<StoredMessage>,
        buffer: &mut Vec<u8>,
        now: u64,
    ) -> (r: Result<(Validity, usize), ErrorReturnCode>)
        requires
            self@.wf(),
        ensures
            r == self@.read_outcome_given(port_id, old(buffer)@.len(), now, stored_model(*stored)),
            r is Ok ==> final(buffer)@ == copied(old(buffer)@, stored_model(*stored)->Some_0.0),
            r is Err ==> final(buffer)@ == old(buffer)@,
    {
        if port_id < 1 || port_id as u64 > self.ports.len() as u64 {
            return Err(ErrorReturnCode::InvalidParam);
        }
        let entry = self.ports[(port_id - 1) as usize];
        let config = &self.configs[entry.config];
        assert(config.model() == self@.config_of(port_id));
        if buffer.len() == 0 {
            return Err(ErrorReturnCode::InvalidParam);
        } else if config.dir != PortDirection::Destination {
            return Err(ErrorReturnCode::InvalidMode);
        }
        match stored {
            None => Err(ErrorReturnCode::NoAction),
            Some(stored) => {
                let ghost msg = stored.data@;
                let n = buffer.len();
                let mut k: usize = 0;
                while k < n && k < stored.data.len()
                    invariant
                        n == old(buffer)@.len(),
                        buffer@.len() == n,
                        msg == stored.data@,
                        k <= n,
                        k <= msg.len(),
                        forall|i: int| 0 <= i < k ==> buffer@[i] == msg[i],
                        forall|i: int| k <= i < n ==> buffer@[i] == old(buffer)@[i],
                    decreases n - k,
                {
                    buffer.set(k, stored.data[k]);
                    k = k + 1;
                }
                assert(buffer@ =~= copied(old(buffer)@, msg));
                let age: u64 = if now >= stored.written_at {
                    now - stored.written_at
                } else {
                    0
                };
                let validity = if age <= entry.refresh {
                    Validity::Valid
                } else {
                    Validity::Invalid
                };
                Ok((validity, stored.data.len()))
            },
        }
    }
}

/// After a successful write through a source port, a read through any
/// destination port on the same channel answers the payload and the length of
/// that write, whatever was written before: the latest write wins.
pub proof fn lemma_read_returns_latest_write(
    m: PortsModel,
    src: i64,
    dst: i64,
    msg: Seq<u8>,
    written: u64,
    buf: Seq<u8>,
    now: u64,
)
    requires
        m.wf(),
        m.write_outcome(src, msg.len()) is Ok,
        m.valid_id(dst),
        m.config_of(dst).dir == PortDirection::Destination,
        m.config_of(dst).channel == m.config_of(src).channel,
        buf.len() > 0,
    ensures
        m.after_write(src, msg, written).wf(),
        m.after_write(src, msg, written).stored(dst) == Some((msg, written)),
        m.after_write(src, msg, written).read_outcome(dst, buf.len(), now) == Ok::<
            (Validity, usize),
            ErrorReturnCode,
        >((validity_of(now, written, m.entry(dst).refresh), msg.len() as usize)),
        copied(buf, m.after_write(src, msg, written).stored(dst)->Some_0.0) == copied(buf, msg),
{
}

/// A message read no later than the refresh period after it was written is
/// valid; one read later is invalid, and its payload and length are still
/// handed out.
pub proof fn lemma_validity_follows_age(
    m: PortsModel,
    src: i64,
    dst: i64,
    msg: Seq<u8>,
    written: u64,
    buf_len: nat,
    now: u64,
)
    requires
        m.wf(),
        m.write_outcome(src, msg.len()) is Ok,
        m.valid_id(dst),
        m.config_of(dst).dir == PortDirection::Destination,
        m.config_of(dst).channel == m.config_of(src).channel,
        buf_len > 0,
        now >= written,
    ensures
        now - written <= m.entry(dst).refresh ==> m.after_write(src, msg, written).read_outcome(
            dst,
            buf_len,
            now,
        ) == Ok::<(Validity, usize), ErrorReturnCode>((Validity::Valid, msg.len() as usize)),
        now - written > m.entry(dst).refresh ==> m.after_write(src, msg, written).read_outcome(
            dst,
            buf_len,
            now,
        ) == Ok::<(Validity, usize), ErrorReturnCode>((Validity::Invalid, msg.len() as usize)),
{
}

/// A port with a refresh period that is not positive is never registered.
pub proof fn lemma_nonpositive_refresh_rejected(
    m: PortsModel,
    name: Seq<char>,
    dir: PortDirection,
    refresh_period: i64,
)
    requires
        refresh_period <= 0,
    ensures
        m.create_outcome(name, dir, refresh_period) == Err::<i64, ErrorReturnCode>(
            ErrorReturnCode::InvalidConfig,
        ),
{
}

/// Once the registrations fill the capacity, the next one is refused with an
/// invalid configuration; a registration that succeeds keeps every port that
/// was registered before it, under the same id.
pub proof fn lemma_capacity_bound(
    m: PortsModel,
    name: Seq<char>,
    dir: PortDirection,
    refresh_period: i64,
)
    requires
        m.wf(),
    ensures
        m.ports.len() == m.capacity ==> m.create_outcome(name, dir, refresh_period) == Err::<
            i64,
            ErrorReturnCode,
        >(ErrorReturnCode::InvalidConfig),
        m.create_outcome(name, dir, refresh_period) is Ok ==> {
            &&& m.after_create(name, refresh_period).ports.len() <= m.capacity
            &&& forall|id: i64|
                m.valid_id(id) ==> m.after_create(name, refresh_period).entry(id) == m.entry(id)
        },
{
}

/// A write of an empty payload through a registered port is an invalid
/// parameter; one larger than the port's message size is an invalid
/// configuration; one of a fitting, non-empty payload through a destination
/// port is an invalid mode.
pub proof fn lemma_write_rejections(m: PortsModel, id: i64, len: nat)
    requires
        m.wf(),
        m.valid_id(id),
    ensures
        len == 0 ==> m.write_outcome(id, len) == Err::<(), ErrorReturnCode>(
            ErrorReturnCode::InvalidParam,
        ),
        len > m.config_of(id).msg_size ==> m.write_outcome(id, len) == Err::<(), ErrorReturnCode>(
            ErrorReturnCode::InvalidConfig,
        ),
        0 < len <= m.config_of(id).msg_size && m.config_of(id).dir == PortDirection::Destination
            ==> m.write_outcome(id, len) == Err::<(), ErrorReturnCode>(
            ErrorReturnCode::InvalidMode,
        ),
{
}

} // verus!
