use vstd::prelude::*;
use std::sync::mpsc::Receiver;

verus! {

#[verifier::external_type_specification]
#[verifier::external_body]
#[verifier::reject_recursive_types(T)]
pub struct ExReceiver<T>(Receiver<T>);

/// One batch of key transitions reported by the host: the key codes that
/// went down and the ones that went up since the previous batch.  Codes
/// outside 0x0..=0xF are ignored when the batch is applied.
pub struct KeysChange {
    pub pressed: Vec<u8>,
    pub released: Vec<u8>,
}

/// The inbound channel of key transition batches from the host.
pub type KeysPressedReceiver = Receiver<KeysChange>;

/// Whether key `key` is down in the pressed-key set `mask`, which holds one
/// bit per key code 0x0..=0xF.
pub open spec fn key_down(mask: u16, key: u8) -> bool
    recommends
        key < 16,
{
    (mask >> (key as u16)) & 1 == 1
}

/// How applying one drained batch changes the pressed-key set: the batch's
/// presses are inserted first and its releases removed after, so for any
/// key the batch both presses and releases, released wins.
pub open spec fn keys_change_applied(pre: u16, change: KeysChange, post: u16) -> bool {
    forall|k: u8|
        k < 16 ==> (key_down(post, k) <==> ((key_down(pre, k) || change.pressed@.contains(k))
            && !change.released@.contains(k)))
}

/// Setting or clearing one key bit touches exactly that key.
proof fn lemma_key_bits(m: u16, j: u16, k: u16)
    by (bit_vector)
    requires
        j < 16,
        k < 16,
    ensures
        (((m | (1u16 << j)) >> k) & 1 == 1) <==> (k == j || ((m >> k) & 1 == 1)),
        (((m & !(1u16 << j)) >> k) & 1 == 1) <==> (k != j && ((m >> k) & 1 == 1)),
{
}

/// A pressed-key set with no key down is the zero mask.
proof fn lemma_no_key_down_means_zero(m: u16)
    requires
        forall|k: u16| k < 16 ==> ((m >> k) & 1 != 1),
    ensures
        m == 0,
{
    assert(m == 0) by (bit_vector)
        requires
            (m >> 0u16) & 1 != 1,
            (m >> 1u16) & 1 != 1,
            (m >> 2u16) & 1 != 1,
            (m >> 3u16) & 1 != 1,
            (m >> 4u16) & 1 != 1,
            (m >> 5u16) & 1 != 1,
            (m >> 6u16) & 1 != 1,
            (m >> 7u16) & 1 != 1,
            (m >> 8u16) & 1 != 1,
            (m >> 9u16) & 1 != 1,
            (m >> 10u16) & 1 != 1,
            (m >> 11u16) & 1 != 1,
            (m >> 12u16) & 1 != 1,
            (m >> 13u16) & 1 != 1,
            (m >> 14u16) & 1 != 1,
            (m >> 15u16) & 1 != 1,
    ;
}

/// The authoritative pressed-key set on the emulation side.  Before every
/// query it drains whatever batches the host has buffered — without ever
/// waiting for more — and applies them in order.
pub struct Keyboard {
    pressed_keys: u16,
    key_receiver: KeysPressedReceiver,
}

impl View for Keyboard {
    type V = u16;

    closed spec fn view(&self) -> u16 {
        self.pressed_keys
    }
}

/// Relies on std::sync::mpsc::Receiver::try_iter: yields exactly the
/// messages already buffered in the channel, in the order they were sent,
/// and never blocks waiting for more.
#[verifier::external_body]
fn drain_key_changes(receiver: &KeysPressedReceiver) -> Vec<KeysChange> {
    receiver.try_iter().collect()
}

/// Inserts the batch's valid presses into `mask`, then removes its valid
/// releases.
fn apply_keys_change(mask: u16, change: &KeysChange) -> (r: u16)
    ensures
        keys_change_applied(mask, *change, r),
{
    let mut m = mask;
    let mut i: usize = 0;
    while i < change.pressed.len()
        invariant
            i <= change.pressed@.len(),
            forall|k: u8|
                k < 16 ==> (key_down(m, k) <==> (key_down(mask, k) || exists|j: int|
                    0 <= j < i && change.pressed@[j] == k)),
        decreases change.pressed@.len() - i,
    {
        let code = change.pressed[i];
        let ghost m_pre = m;
        if code <= 0xF {
            m = m | (1u16 << (code as u16));
        }
        proof {
            assert forall|k: u8|
                k < 16 implies (key_down(m, k) <==> (key_down(mask, k) || exists|j: int|
                0 <= j < i + 1 && change.pressed@[j] == k)) by {
                if code <= 0xF {
                    lemma_key_bits(m_pre, code as u16, k as u16);
                }
                if key_down(mask, k) || exists|j: int| 0 <= j < i + 1 && change.pressed@[j] == k {
                    if !(key_down(mask, k) || exists|j: int|
                        0 <= j < i && change.pressed@[j] == k) {
                        assert(change.pressed@[i as int] == k);
                    }
                }
            }
        }
        i = i + 1;
    }
    let ghost m1 = m;
    let mut i2: usize = 0;
    while i2 < change.released.len()
        invariant
            i2 <= change.released@.len(),
            forall|k: u8|
                k < 16 ==> (key_down(m, k) <==> (key_down(m1, k) && !(exists|j: int|
                    0 <= j < i2 && change.released@[j] == k))),
        decreases change.released@.len() - i2,
    {
        let code = change.released[i2];
        let ghost m_pre = m;
        if code <= 0xF {
            m = m & !(1u16 << (code as u16));
        }
        proof {
            assert forall|k: u8|
                k < 16 implies (key_down(m, k) <==> (key_down(m1, k) && !(exists|j: int|
                0 <= j < i2 + 1 && change.released@[j] == k))) by {
                if code <= 0xF {
                    lemma_key_bits(m_pre, code as u16, k as u16);
                }
                if exists|j: int| 0 <= j < i2 + 1 && change.released@[j] == k {
                    if !(exists|j: int| 0 <= j < i2 && change.released@[j] == k) {
                        assert(change.released@[i2 as int] == k);
                    }
                }
            }
        }
        i2 = i2 + 1;
    }
    m
}

impl Keyboard {
    pub fn new(key_receiver: KeysPressedReceiver) -> (r: Self)
        ensures
            r@ == 0,
    {
        Self { pressed_keys: 0, key_receiver }
    }

    /// Drains and applies every buffered batch; what the host reported last
    /// decides the final set.
    fn update_pressed_keys(&mut self) {
        let changes = drain_key_changes(&self.key_receiver);
        let mut i: usize = 0;
        while i < changes.len()
            decreases changes@.len() - i,
        {
            self.pressed_keys = apply_keys_change(self.pressed_keys, &changes[i]);
            i = i + 1;
        }
    }

    /// Whether `chip_8_key` is down right now, after draining the host's
    /// buffered reports.
    pub fn is_key_pressed_or_held(&mut self, chip_8_key: u8) -> (r: bool)
        requires
            chip_8_key < 16,
        ensures
            r == key_down(final(self)@, chip_8_key),
    {
        self.update_pressed_keys();
        (self.pressed_keys >> (chip_8_key as u16)) & 1 == 1
    }

    /// Some currently held key, after draining the host's buffered reports,
    /// or nothing when no key is down.
    pub fn get_pressed_key(&mut self) -> (r: Option<u8>)
        ensures
            match r {
                Some(k) => k < 16 && key_down(final(self)@, k),
                None => final(self)@ == 0,
            },
    {
        self.update_pressed_keys();
        let mut k: u8 = 0;
        while k < 16
            invariant
                k <= 16,
                forall|j: u16| j < k ==> ((self@ >> j) & 1 != 1),
            decreases 16 - k,
        {
            if (self.pressed_keys >> (k as u16)) & 1 == 1 {
                return Some(k);
            }
            k = k + 1;
        }
        proof {
            lemma_no_key_down_means_zero(self@);
        }
        None
    }
}

/// The library's key code for a raw host key code: the code itself when it
/// is one of the 16 machine keys, nothing otherwise.
pub fn to_chip_8_key(key: u8) -> (r: Option<u8>)
    ensures
        r == if key < 16 {
            Some(key)
        } else {
            None::<u8>
        },
{
    if is_valid_key_code(key) {
        assert(key & 0xF == key) by (bit_vector)
            requires
                key < 16,
        ;
        Some(key & 0xF)
    } else {
        None
    }
}

/// Whether a raw host key code names one of the 16 machine keys.
pub fn is_valid_key_code(key: u8) -> (r: bool)
    ensures
        r == (key < 16),
{
    key <= 0xF
}

/// A key that one drained batch reports released is up afterwards, whether
/// or not the same batch also reported it pressed: within a batch, and
/// across batches applied in order, the latest report wins.
pub proof fn lemma_released_key_is_up(pre: u16, change: KeysChange, post: u16, k: u8)
    requires
        k < 16,
        keys_change_applied(pre, change, post),
        change.released@.contains(k),
    ensures
        !key_down(post, k),
{
}

/// A key pressed in one batch and released in a later one is up once both
/// batches are applied: the emulation side only ever observes the final
/// aggregate state.
pub proof fn lemma_press_then_release_is_up(
    pre: u16,
    mid: u16,
    post: u16,
    first: KeysChange,
    second: KeysChange,
    k: u8,
)
    requires
        k < 16,
        keys_change_applied(pre, first, mid),
        keys_change_applied(mid, second, post),
        first.pressed@.contains(k),
        second.released@.contains(k),
    ensures
        !key_down(post, k),
{
}

} // verus!
