//! Button configuration: one byte per button, the low nibble naming the
//! action used while both earbuds are connected, the high nibble the action
//! used while they are apart. These buttons carry no enabled flag.
use vstd::prelude::*;

verus! {

/// The actions a button triggers, by earbud connection state.
#[derive(Clone, Copy, Debug, PartialEq, Eq)]
pub enum ActionStatus {
    Tws { connected: u8, disconnected: u8 },
}

/// The configuration of one button.
#[derive(Clone, Copy, Debug, PartialEq, Eq)]
pub struct ButtonStatus {
    /// Always `None` here: the packet has no enabled flag for these buttons.
    pub enabled: Option<bool>,
    pub action: ActionStatus,
}

impl ButtonStatus {
    /// A status that one byte can hold: no enabled flag, both actions below 16.
    pub open spec fn wf(self) -> bool {
        &&& self.enabled is None
        &&& self.action matches ActionStatus::Tws { connected, disconnected }
        &&& connected < 16
        &&& disconnected < 16
    }

    /// The status that a byte denotes.
    pub open spec fn spec_parse(b: u8) -> ButtonStatus {
        ButtonStatus {
            enabled: None,
            action: ActionStatus::Tws { connected: b % 16, disconnected: b / 16 },
        }
    }

    /// The byte written for this status; the enabled flag is not written.
    pub open spec fn spec_byte(self) -> u8 {
        match self.action {
            ActionStatus::Tws { connected, disconnected } => (disconnected << 4u8) | connected,
        }
    }

    pub fn parse(b: u8) -> (s: ButtonStatus)
        ensures
            s == Self::spec_parse(b),
    {
        ButtonStatus {
            enabled: None,
            action: ActionStatus::Tws { connected: b % 16, disconnected: b / 16 },
        }
    }

    pub fn byte(&self) -> (b: u8)
        ensures
            b == self.spec_byte(),
    {
        match self.action {
            ActionStatus::Tws { connected, disconnected } => (disconnected << 4u8) | connected,
        }
    }

    /// The low four bits of a byte name the action while connected and the
    /// high four bits the action while apart; a written status puts them
    /// back there.
    pub proof fn lemma_nibbles(self, b: u8)
        ensures
            Self::spec_parse(b).action == (ActionStatus::Tws {
                connected: b & 0x0f,
                disconnected: b >> 4u8,
            }),
            Self::spec_parse(b).enabled is None,
            self.wf() ==> self.action == (ActionStatus::Tws {
                connected: self.spec_byte() & 0x0f,
                disconnected: self.spec_byte() >> 4u8,
            }),
    {
        assert(b % 16 == b & 0x0f && b / 16 == b >> 4u8) by (bit_vector);
        if self.wf() {
            self.lemma_roundtrip();
            let x = self.spec_byte();
            assert(x % 16 == x & 0x0f && x / 16 == x >> 4u8) by (bit_vector);
        }
    }

    /// Reading the byte of a well-formed status gives it back.
    pub proof fn lemma_roundtrip(self)
        requires
            self.wf(),
        ensures
            Self::spec_parse(self.spec_byte()) == self,
    {
        match self.action {
            ActionStatus::Tws { connected: c, disconnected: d } => {
                assert(((d << 4u8) | c) % 16 == c && ((d << 4u8) | c) / 16 == d) by (bit_vector)
                    requires
                        c < 16u8,
                        d < 16u8,
                ;
            },
        }
    }

    /// A status read from a byte is well formed and writes the same byte.
    pub proof fn lemma_parse_exact(b: u8)
        ensures
            Self::spec_parse(b).wf(),
            Self::spec_parse(b).spec_byte() == b,
    {
        assert(b % 16 < 16 && b / 16 < 16 && ((b / 16) << 4u8) | (b % 16) == b) by (bit_vector);
    }
}

/// The statuses of `N` buttons, in the order in which the packet lists them.
#[derive(Clone, Copy, Debug, PartialEq, Eq)]
pub struct ButtonStatusCollection<const N: usize>(pub [ButtonStatus; N]);

/// The statuses that a run of bytes denotes, one per byte.
pub open spec fn spec_parse_statuses(bytes: Seq<u8>) -> Seq<ButtonStatus> {
    bytes.map_values(|b: u8| ButtonStatus::spec_parse(b))
}

impl<const N: usize> ButtonStatusCollection<N> {
    pub open spec fn wf(self) -> bool {
        forall|i: int| 0 <= i < N ==> (#[trigger] self.0@[i]).wf()
    }

    /// The bytes written for these statuses, one per button.
    pub open spec fn spec_bytes(self) -> Seq<u8> {
        self.0@.map_values(|s: ButtonStatus| s.spec_byte())
    }

    /// Whether these statuses are the ones that `bytes` denote.
    pub open spec fn parsed_from(self, bytes: Seq<u8>) -> bool {
        self.0@ == spec_parse_statuses(bytes)
    }

    /// The configuration that a device reports before any change: no enabled
    /// flag and action 0 in both connection states, for every button.
    pub fn default_status_collection() -> (c: Self)
        ensures
            forall|i: int|
                0 <= i < N ==> #[trigger] c.0@[i] == (ButtonStatus {
                    enabled: None,
                    action: ActionStatus::Tws { connected: 0, disconnected: 0 },
                }),
            c.wf(),
    {
        let c = ButtonStatusCollection(
            [ButtonStatus { enabled: None, action: ActionStatus::Tws { connected: 0, disconnected: 0 } };
            N],
        );
        c
    }

    /// Reads `N` statuses from `N` bytes.
    pub fn parse(bytes: &[u8]) -> (c: Self)
        requires
            bytes@.len() == N,
        ensures
            c.parsed_from(bytes@),
    {
        let mut out = [ButtonStatus { enabled: None, action: ActionStatus::Tws { connected: 0, disconnected: 0 } };
        N];
        let mut i: usize = 0;
        while i < N
            invariant
                i <= N,
                bytes@.len() == N,
                out@.len() == N,
                forall|j: int| 0 <= j < i ==> out@[j] == ButtonStatus::spec_parse(bytes@[j]),
            decreases N - i,
        {
            out[i] = ButtonStatus::parse(bytes[i]);
            i = i + 1;
        }
        assert(out@ =~= spec_parse_statuses(bytes@));
        ButtonStatusCollection(out)
    }

    /// The bytes written for these statuses.
    pub fn bytes(&self) -> (out: [u8; N])
        ensures
            out@ == self.spec_bytes(),
    {
        let mut out = [0u8; N];
        let mut i: usize = 0;
        while i < N
            invariant
                i <= N,
                out@.len() == N,
                self.0@.len() == N,
                forall|j: int| 0 <= j < i ==> out@[j] == self.0@[j].spec_byte(),
            decreases N - i,
        {
            out[i] = self.0[i].byte();
            i = i + 1;
        }
        assert(out@ =~= self.spec_bytes());
        out
    }

    /// Button `i` is read from byte `i` and written to byte `i`.
    pub proof fn lemma_by_position(self, bytes: Seq<u8>)
        requires
            bytes.len() == N,
            self.parsed_from(bytes),
        ensures
            forall|i: int|
                0 <= i < N ==> (#[trigger] self.0@[i]).action == (ActionStatus::Tws {
                    connected: bytes[i] & 0x0f,
                    disconnected: bytes[i] >> 4u8,
                }) && self.0@[i].enabled is None,
    {
        assert forall|i: int| 0 <= i < N implies (#[trigger] self.0@[i]).action == (ActionStatus::Tws {
            connected: bytes[i] & 0x0f,
            disconnected: bytes[i] >> 4u8,
        }) && self.0@[i].enabled is None by {
            self.0@[i].lemma_nibbles(bytes[i]);
        }
    }

    /// Each well-formed button status is written to the byte at its own
    /// position.
    pub proof fn lemma_written_by_position(self)
        ensures
            self.spec_bytes().len() == N,
            forall|i: int|
                0 <= i < N && (#[trigger] self.0@[i]).wf() ==> self.0@[i].action == (
                ActionStatus::Tws {
                    connected: self.spec_bytes()[i] & 0x0f,
                    disconnected: self.spec_bytes()[i] >> 4u8,
                }),
    {
        assert forall|i: int| 0 <= i < N && (#[trigger] self.0@[i]).wf() implies self.0@[i].action
            == (ActionStatus::Tws {
            connected: self.spec_bytes()[i] & 0x0f,
            disconnected: self.spec_bytes()[i] >> 4u8,
        }) by {
            self.0@[i].lemma_nibbles(0);
        }
    }

    /// Reading the bytes of well-formed statuses gives them back.
    pub proof fn lemma_roundtrip(self)
        requires
            self.wf(),
        ensures
            self.parsed_from(self.spec_bytes()),
    {
        assert forall|i: int| 0 <= i < N implies #[trigger] spec_parse_statuses(self.spec_bytes())[i]
            == self.0@[i] by {
            self.0@[i].lemma_roundtrip();
        }
        assert(spec_parse_statuses(self.spec_bytes()) =~= self.0@);
    }

    /// Statuses read from bytes are well formed and write the same bytes.
    pub proof fn lemma_parse_exact(self, bytes: Seq<u8>)
        requires
            bytes.len() == N,
            self.parsed_from(bytes),
        ensures
            self.wf(),
            self.spec_bytes() == bytes,
    {
        assert forall|i: int| 0 <= i < N implies (#[trigger] self.0@[i]).wf()
            && self.0@[i].spec_byte() == bytes[i] by {
            ButtonStatus::lemma_parse_exact(bytes[i]);
        }
        assert(self.spec_bytes() =~= bytes);
    }
}

} // verus!
