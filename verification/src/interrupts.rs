use vstd::prelude::*;

verus! {

/// The initialization command of the 8259 controller.
pub const CMD_INIT: u8 = 0x11;

/// The end-of-interrupt acknowledgment command.
pub const CMD_END_OF_INTERRUPT: u8 = 0x20;

/// The controller operating mode programmed during initialization.
pub const MODE_8086: u8 = 0x01;

/// The port written with junk between initialization steps, standing in for
/// a delay while no timer exists yet.
pub const WAIT_PORT: u16 = 0x80;

/// The vector base of the primary controller.
pub const PIC_1_OFFSET: u8 = 32;

/// The vector base of the secondary controller, chained after the primary.
pub const PIC_2_OFFSET: u8 = PIC_1_OFFSET + 8;

/// One write of a byte to an I/O port. The controller logic is verified as a
/// producer of these; the run-time performs them, in order, at the hardware.
#[derive(Clone, Copy, Debug, PartialEq, Eq, Structural)]
pub struct PortWrite {
    pub port: u16,
    pub value: u8,
}

/// One 8-bit interrupt controller: the vector base it is mapped at and the
/// port numbers of its command and data registers.
#[derive(Clone, Copy, Debug, PartialEq, Eq, Structural)]
pub struct Pic {
    pub offset: u8,
    pub command: u16,
    pub data: u16,
}

impl Pic {
    /// This controller owns the vectors `offset..offset + 8`.
    pub open spec fn spec_handles_interrupt(self, interrupt_id: u8) -> bool {
        self.offset <= interrupt_id < self.offset + 8
    }

    pub fn handles_interrupt(&self, interrupt_id: u8) -> (r: bool)
        ensures
            r == self.spec_handles_interrupt(interrupt_id),
    {
        self.offset <= interrupt_id && (interrupt_id as u16) < (self.offset as u16) + 8
    }

    /// The acknowledgment write for this controller.
    pub fn end_of_interrupt(&self) -> (w: PortWrite)
        ensures
            w == (PortWrite { port: self.command, value: CMD_END_OF_INTERRUPT }),
    {
        PortWrite { port: self.command, value: CMD_END_OF_INTERRUPT }
    }
}

/// The chained pair of interrupt controllers at the standard ports. All the
/// decisions — which controller owns a vector, what to send in which order —
/// are made here; the unverified run-time only carries the writes out.
#[derive(Clone, Copy, Debug, PartialEq, Eq, Structural)]
pub struct ChainedPics {
    pub primary: Pic,
    pub secondary: Pic,
}

/// The full (re-)initialization sequence: initialization command to both
/// controllers, each controller's vector base, the chaining relationship,
/// the operating mode — a delay write after each step — and finally the
/// previously saved masks, written back so that re-initialization preserves
/// them instead of resetting them to all-enabled.
pub open spec fn spec_init_sequence(cp: ChainedPics, saved_mask1: u8, saved_mask2: u8) -> Seq<
    PortWrite,
> {
    seq![
        PortWrite { port: cp.primary.command, value: CMD_INIT },
        PortWrite { port: WAIT_PORT, value: 0 },
        PortWrite { port: cp.secondary.command, value: CMD_INIT },
        PortWrite { port: WAIT_PORT, value: 0 },
        PortWrite { port: cp.primary.data, value: cp.primary.offset },
        PortWrite { port: WAIT_PORT, value: 0 },
        PortWrite { port: cp.secondary.data, value: cp.secondary.offset },
        PortWrite { port: WAIT_PORT, value: 0 },
        PortWrite { port: cp.primary.data, value: 4 },
        PortWrite { port: WAIT_PORT, value: 0 },
        PortWrite { port: cp.secondary.data, value: 2 },
        PortWrite { port: WAIT_PORT, value: 0 },
        PortWrite { port: cp.primary.data, value: MODE_8086 },
        PortWrite { port: WAIT_PORT, value: 0 },
        PortWrite { port: cp.secondary.data, value: MODE_8086 },
        PortWrite { port: WAIT_PORT, value: 0 },
        PortWrite { port: cp.primary.data, value: saved_mask1 },
        PortWrite { port: cp.secondary.data, value: saved_mask2 },
    ]
}

/// The acknowledgment sequence for a vector: nothing for a vector neither
/// controller owns; the primary's acknowledgment alone for its own vectors;
/// and for a vector of the secondary controller, the secondary's
/// acknowledgment strictly before the primary's — the ordering on which
/// continued interrupt delivery depends.
pub open spec fn spec_eoi_sequence(cp: ChainedPics, interrupt_id: u8) -> Seq<PortWrite> {
    if cp.secondary.spec_handles_interrupt(interrupt_id) {
        seq![
            PortWrite { port: cp.secondary.command, value: CMD_END_OF_INTERRUPT },
            PortWrite { port: cp.primary.command, value: CMD_END_OF_INTERRUPT },
        ]
    } else if cp.primary.spec_handles_interrupt(interrupt_id) {
        seq![PortWrite { port: cp.primary.command, value: CMD_END_OF_INTERRUPT }]
    } else {
        Seq::empty()
    }
}

impl ChainedPics {
    /// A chained pair with the given vector bases, at the standard ports.
    pub fn new(offset1: u8, offset2: u8) -> (cp: ChainedPics)
        ensures
            cp.primary == (Pic { offset: offset1, command: 0x20, data: 0x21 }),
            cp.secondary == (Pic { offset: offset2, command: 0xa0, data: 0xa1 }),
    {
        ChainedPics {
            primary: Pic { offset: offset1, command: 0x20, data: 0x21 },
            secondary: Pic { offset: offset2, command: 0xa0, data: 0xa1 },
        }
    }

    /// One of the two controllers owns this vector.
    pub fn handles_interrupt(&self, interrupt_id: u8) -> (r: bool)
        ensures
            r == (self.primary.spec_handles_interrupt(interrupt_id)
                || self.secondary.spec_handles_interrupt(interrupt_id)),
    {
        self.primary.handles_interrupt(interrupt_id) || self.secondary.handles_interrupt(
            interrupt_id,
        )
    }

    /// Computes the whole initialization sequence, the saved masks last. The
    /// caller reads the masks before and performs these writes in order.
    pub fn initialize(&self, saved_mask1: u8, saved_mask2: u8) -> (writes: Vec<PortWrite>)
        ensures
            writes@ == spec_init_sequence(*self, saved_mask1, saved_mask2),
    {
        let mut writes: Vec<PortWrite> = Vec::new();
        writes.push(PortWrite { port: self.primary.command, value: CMD_INIT });
        writes.push(PortWrite { port: WAIT_PORT, value: 0 });
        writes.push(PortWrite { port: self.secondary.command, value: CMD_INIT });
        writes.push(PortWrite { port: WAIT_PORT, value: 0 });
        writes.push(PortWrite { port: self.primary.data, value: self.primary.offset });
        writes.push(PortWrite { port: WAIT_PORT, value: 0 });
        writes.push(PortWrite { port: self.secondary.data, value: self.secondary.offset });
        writes.push(PortWrite { port: WAIT_PORT, value: 0 });
        writes.push(PortWrite { port: self.primary.data, value: 4 });
        writes.push(PortWrite { port: WAIT_PORT, value: 0 });
        writes.push(PortWrite { port: self.secondary.data, value: 2 });
        writes.push(PortWrite { port: WAIT_PORT, value: 0 });
        writes.push(PortWrite { port: self.primary.data, value: MODE_8086 });
        writes.push(PortWrite { port: WAIT_PORT, value: 0 });
        writes.push(PortWrite { port: self.secondary.data, value: MODE_8086 });
        writes.push(PortWrite { port: WAIT_PORT, value: 0 });
        writes.push(PortWrite { port: self.primary.data, value: saved_mask1 });
        writes.push(PortWrite { port: self.secondary.data, value: saved_mask2 });
        proof {
            assert(writes@ =~= spec_init_sequence(*self, saved_mask1, saved_mask2));
        }
        writes
    }

    /// The mask-restore writes alone: each controller's mask to its data port.
    pub fn write_masks(&self, mask1: u8, mask2: u8) -> (writes: Vec<PortWrite>)
        ensures
            writes@ == seq![
                PortWrite { port: self.primary.data, value: mask1 },
                PortWrite { port: self.secondary.data, value: mask2 },
            ],
    {
        let mut writes: Vec<PortWrite> = Vec::new();
        writes.push(PortWrite { port: self.primary.data, value: mask1 });
        writes.push(PortWrite { port: self.secondary.data, value: mask2 });
        proof {
            assert(writes@ =~= seq![
                PortWrite { port: self.primary.data, value: mask1 },
                PortWrite { port: self.secondary.data, value: mask2 },
            ]);
        }
        writes
    }

    /// Computes the acknowledgment writes for a serviced vector, secondary
    /// controller first where it is involved.
    pub fn notify_end_of_interrupt(&self, interrupt_id: u8) -> (writes: Vec<PortWrite>)
        ensures
            writes@ == spec_eoi_sequence(*self, interrupt_id),
    {
        let mut writes: Vec<PortWrite> = Vec::new();
        if self.handles_interrupt(interrupt_id) {
            if self.secondary.handles_interrupt(interrupt_id) {
                writes.push(self.secondary.end_of_interrupt());
            }
            writes.push(self.primary.end_of_interrupt());
        }
        proof {
            assert(writes@ =~= spec_eoi_sequence(*self, interrupt_id));
        }
        writes
    }
}

/// Acknowledgment ordering: a vector owned by the secondary controller is
/// acknowledged at the secondary controller strictly before the primary,
/// a vector owned by the primary alone is acknowledged there, and a vector
/// owned by neither is not acknowledged at all — mis-ordering or omission
/// here silently stops interrupt delivery, so it is pinned by proof.
pub proof fn lemma_eoi_ordering(cp: ChainedPics, interrupt_id: u8)
    ensures
        cp.secondary.spec_handles_interrupt(interrupt_id) ==> {
            let s = spec_eoi_sequence(cp, interrupt_id);
            s.len() == 2 && s[0].port == cp.secondary.command && s[1].port == cp.primary.command
        },
        !cp.secondary.spec_handles_interrupt(interrupt_id)
            && cp.primary.spec_handles_interrupt(interrupt_id) ==> {
            let s = spec_eoi_sequence(cp, interrupt_id);
            s.len() == 1 && s[0].port == cp.primary.command
        },
        !cp.secondary.spec_handles_interrupt(interrupt_id)
            && !cp.primary.spec_handles_interrupt(interrupt_id) ==> spec_eoi_sequence(
            cp,
            interrupt_id,
        ).len() == 0,
{
}

/// The hardware interrupt lines the kernel services, as vector numbers.
#[derive(Clone, Copy, Debug, PartialEq, Eq, Structural)]
pub enum InterruptIndex {
    Timer,
    Keyboard,
    Mouse,
}

impl InterruptIndex {
    /// The vector this line is mapped to: the timer at the primary base, the
    /// keyboard just after it, the mouse at line 12 of the chained pair.
    pub open spec fn spec_as_u8(self) -> u8 {
        match self {
            InterruptIndex::Timer => PIC_1_OFFSET,
            InterruptIndex::Keyboard => (PIC_1_OFFSET + 1) as u8,
            InterruptIndex::Mouse => (PIC_1_OFFSET + 12) as u8,
        }
    }

    pub fn as_u8(self) -> (r: u8)
        ensures
            r == self.spec_as_u8(),
    {
        match self {
            InterruptIndex::Timer => PIC_1_OFFSET,
            InterruptIndex::Keyboard => PIC_1_OFFSET + 1,
            InterruptIndex::Mouse => PIC_1_OFFSET + 12,
        }
    }

    pub fn as_usize(self) -> (r: usize)
        ensures
            r == self.spec_as_u8(),
    {
        self.as_u8() as usize
    }
}

} // verus!
