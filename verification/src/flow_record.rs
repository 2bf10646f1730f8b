//! Recording a session as a flow: keys become key steps, runs of typed
//! characters become text steps (kept as typed, masked with a hash of the
//! text, or left out, by the redaction chosen), and checkpoints assert the
//! view at intervals. Writing the finished flow is the application's part.
use vstd::prelude::*;
use vstd::utf8::encode_utf8;
use crate::flow::{
    FlowAssertion, FlowEnv, FlowKey, FlowKeyCode, FlowStep, RecordRedaction, TerminalSize, TuiFlow,
};
use crate::text::{decimal, owned, push_char, push_str, u64_to_decimal};

verus! {

/// The lowercase hexadecimal BLAKE3 hash of some bytes, as
/// `blake3::hash(..).to_hex()` gives it.
pub uninterp spec fn blake3_hex(bytes: Seq<u8>) -> Seq<char>;

/// Calls `blake3::hash` and `Hash::to_hex`. Claims that the result is the
/// hash named `blake3_hex` of the bytes, 64 characters long (32 bytes in
/// hex), as the crate's `to_hex` writes it.
#[verifier::external_body]
fn blake3_hex_of(bytes: &[u8]) -> (r: String)
    ensures
        r@ == blake3_hex(bytes@),
        r@.len() == 64,
{
    blake3::hash(bytes).to_hex().to_string()
}

/// Records keys and typed text into a flow.
#[derive(Debug)]
pub struct FlowRecorder {
    /// Where the flow is to be written
    pub path: String,
    pub redaction: RecordRedaction,
    /// Milliseconds between checkpoints; none: no checkpoints
    pub checkpoint_every_ms: Option<u64>,
    pub flow: TuiFlow,
    /// Typed text waiting to become a step, as it will be recorded
    pub pending_text: String,
    /// Characters typed since the last step
    pub pending_len: usize,
    /// The characters typed since the last step, kept to be hashed under
    /// the hash and omit redactions
    pub pending_raw: String,
    pub last_checkpoint_at: std::time::Instant,
}

/// What is waiting to become a text step.
pub struct Pending {
    pub text: Seq<char>,
    pub len: nat,
    pub raw: Seq<char>,
}

impl FlowRecorder {
    pub open spec fn pending(&self) -> Pending {
        Pending { text: self.pending_text@, len: self.pending_len as nat, raw: self.pending_raw@ }
    }

    /// The recorder is as before but for its steps and pending text.
    pub open spec fn same_settings(&self, other: &FlowRecorder) -> bool {
        &&& self.path == other.path
        &&& self.redaction == other.redaction
        &&& self.checkpoint_every_ms == other.checkpoint_every_ms
        &&& self.flow.version == other.flow.version
        &&& self.flow.env == other.flow.env
    }
}

/// Nothing is waiting.
pub open spec fn no_pending() -> Pending {
    Pending { text: Seq::empty(), len: 0, raw: Seq::empty() }
}

/// What is waiting after one more typed character: counted (up to the
/// largest count), and kept as typed, as `*`, or not at all, the raw
/// character being kept for the hash unless the text is kept as typed.
pub open spec fn pending_after_char(r: RecordRedaction, p: Pending, ch: char) -> Pending {
    let len = if p.len + 1 <= usize::MAX {
        p.len + 1
    } else {
        p.len
    };
    match r {
        RecordRedaction::Plaintext => Pending { text: p.text.push(ch), len, raw: p.raw },
        RecordRedaction::Hash => Pending { text: p.text.push('*'), len, raw: p.raw.push(ch) },
        RecordRedaction::Omit => Pending { text: p.text, len, raw: p.raw.push(ch) },
    }
}

/// The text and label of the step that waiting text becomes: as typed with
/// no label; masked, labelled with its length and hash; or empty, labelled
/// with its length.
pub open spec fn text_step_content(r: RecordRedaction, p: Pending) -> (Seq<char>, Option<Seq<char>>) {
    match r {
        RecordRedaction::Plaintext => (p.text, None),
        RecordRedaction::Hash => (
            p.text,
            Some(
                "redacted=hash len="@ + decimal(p.len) + " blake3="@ + blake3_hex(
                    encode_utf8(p.raw),
                ),
            ),
        ),
        RecordRedaction::Omit => (Seq::empty(), Some("redacted=omit len="@ + decimal(p.len))),
    }
}

/// `s` is a text step with this text and label.
pub open spec fn is_text_step(s: FlowStep, content: (Seq<char>, Option<Seq<char>>)) -> bool {
    match s {
        FlowStep::Text { text, label } => text@ == content.0 && match (label, content.1) {
            (Some(a), Some(b)) => a@ == b,
            (None, None) => true,
            _ => false,
        },
        _ => false,
    }
}

/// `s` is a key step for this key, unlabelled.
pub open spec fn is_key_step(s: FlowStep, k: FlowKey) -> bool {
    s matches FlowStep::Key { key, label } && key == k && label is None
}

/// `s` asserts that the screen shows "View: {view}", labelled `label`.
pub open spec fn is_checkpoint_step(s: FlowStep, view: Seq<char>, label: Seq<char>) -> bool {
    match s {
        FlowStep::Assert { assert: a, label: l } => {
            &&& l matches Some(x) && x@ == label
            &&& a.plain_contains@.len() == 1
            &&& a.plain_contains@[0]@ == "View: "@ + view
            &&& a.plain_not_contains@.len() == 0
            &&& a.mask_contains@.len() == 0
            &&& a.mask_not_contains@.len() == 0
            &&& a.layout_contains@.len() == 0
            &&& a.layout_not_contains@.len() == 0
            &&& a.ui_signature_key is None
            &&& a.ui_signature_contains@.len() == 0
            &&& a.ui_signature_not_contains@.len() == 0
        },
        _ => false,
    }
}

/// `new` is `old` followed by the text step of the waiting text, when any
/// is waiting.
pub open spec fn flushed(old: Seq<FlowStep>, r: RecordRedaction, p: Pending, new: Seq<FlowStep>) -> bool {
    if p.len == 0 {
        new == old
    } else {
        &&& new.len() == old.len() + 1
        &&& new.drop_last() == old
        &&& is_text_step(new.last(), text_step_content(r, p))
    }
}

impl FlowRecorder {
    /// A recorder for a flow of version 1 in the given environment:
    /// nothing recorded, checkpoints every so many milliseconds (none for
    /// none or 0), timed from now.
    pub fn new(
        path: String,
        redaction: RecordRedaction,
        terminal: TerminalSize,
        database: Option<String>,
        checkpoint_every_ms: Option<u64>,
        casparian_home: String,
    ) -> (r: Self)
        ensures
            r.path == path,
            r.redaction == redaction,
            r.checkpoint_every_ms == (match checkpoint_every_ms {
                Some(ms) => if ms == 0 {
                    None
                } else {
                    Some(ms)
                },
                None => None,
            }),
            r.flow.version == 1,
            r.flow.env == (FlowEnv {
                casparian_home: Some(casparian_home),
                database,
                terminal: Some(terminal),
                seed: None,
                fixture: None,
            }),
            r.flow.steps@.len() == 0,
            r.pending() == no_pending(),
    {
        let every = match checkpoint_every_ms {
            Some(ms) => if ms == 0 {
                None
            } else {
                Some(ms)
            },
            None => None,
        };
        FlowRecorder {
            path,
            redaction,
            checkpoint_every_ms: every,
            flow: TuiFlow {
                version: 1,
                env: FlowEnv {
                    casparian_home: Some(casparian_home),
                    database,
                    terminal: Some(terminal),
                    seed: None,
                    fixture: None,
                },
                steps: Vec::new(),
            },
            pending_text: String::new(),
            pending_len: 0,
            pending_raw: String::new(),
            last_checkpoint_at: crate::clock::instant_now(),
        }
    }

    fn push_text_char(&mut self, ch: char)
        ensures
            final(self).pending() == pending_after_char(old(self).redaction, old(self).pending(), ch),
            final(self).same_settings(old(self)),
            final(self).flow.steps == old(self).flow.steps,
    {
        if self.pending_len < usize::MAX {
            self.pending_len = self.pending_len + 1;
        }
        match self.redaction {
            RecordRedaction::Plaintext => {
                push_char(&mut self.pending_text, ch);
            },
            RecordRedaction::Hash => {
                push_char(&mut self.pending_text, '*');
                push_char(&mut self.pending_raw, ch);
            },
            RecordRedaction::Omit => {
                push_char(&mut self.pending_raw, ch);
            },
        }
    }

    /// Turns the waiting text, if any, into a text step.
    pub fn flush_text(&mut self)
        ensures
            flushed(old(self).flow.steps@, old(self).redaction, old(self).pending(), final(self).flow.steps@),
            final(self).pending() == no_pending() || (old(self).pending_len == 0
                && final(self).pending() == old(self).pending()),
            final(self).same_settings(old(self)),
    {
        if self.pending_len == 0 {
            return;
        }
        let n = u64_to_decimal(self.pending_len as u64);
        let (text, label) = match self.redaction {
            RecordRedaction::Plaintext => (owned(self.pending_text.as_str()), None),
            RecordRedaction::Hash => {
                let hex = blake3_hex_of(self.pending_raw.as_str().as_bytes());
                let mut l = owned("redacted=hash len=");
                push_str(&mut l, n.as_str());
                push_str(&mut l, " blake3=");
                push_str(&mut l, hex.as_str());
                (owned(self.pending_text.as_str()), Some(l))
            },
            RecordRedaction::Omit => {
                let mut l = owned("redacted=omit len=");
                push_str(&mut l, n.as_str());
                (String::new(), Some(l))
            },
        };
        let ghost before = self.flow.steps@;
        self.flow.steps.push(FlowStep::Text { text, label });
        proof {
            assert(self.flow.steps@.drop_last() =~= before);
        }
        self.pending_text = String::new();
        self.pending_len = 0;
        self.pending_raw = String::new();
    }

    fn push_checkpoint(&mut self, view: &str, label: &str)
        ensures
            final(self).flow.steps@.len() == old(self).flow.steps@.len() + 1,
            final(self).flow.steps@.drop_last() == old(self).flow.steps@,
            is_checkpoint_step(final(self).flow.steps@.last(), view@, label@),
            final(self).pending() == old(self).pending(),
            final(self).same_settings(old(self)),
    {
        let mut text = owned("View: ");
        push_str(&mut text, view);
        let mut check = FlowAssertion::default();
        check.plain_contains.push(text);
        let ghost before = self.flow.steps@;
        self.flow.steps.push(FlowStep::Assert { assert: check, label: Some(owned(label)) });
        proof {
            assert(self.flow.steps@.drop_last() =~= before);
        }
    }
}

/// The steps a key adds to `old` when it is recorded with `due` telling
/// whether a checkpoint is due, on the view labelled `view`. A key that
/// types a character only adds to the waiting text; any other key first
/// turns the waiting text into a step, then is recorded itself when it has
/// a flow key. When checkpoints are on and one is due, the waiting text
/// becomes a step and a "checkpoint" assertion of the view follows.
pub open spec fn recorded_steps(
    old: Seq<FlowStep>,
    r: RecordRedaction,
    checkpoints_on: bool,
    p: Pending,
    key: Option<FlowKey>,
    due: bool,
    view: Seq<char>,
    new: Seq<FlowStep>,
    p_after: Pending,
) -> bool {
    let tc = match key {
        Some(k) => match k.code {
            FlowKeyCode::Char(c) => if !k.modifiers.ctrl && !k.modifiers.alt {
                Some(c)
            } else {
                None
            },
            _ => None,
        },
        None => None,
    };
    let checkpoint = checkpoints_on && due;
    match tc {
        Some(ch) => {
            let q = pending_after_char(r, p, ch);
            if checkpoint {
                &&& new.len() >= 1
                &&& flushed(old, r, q, new.drop_last())
                &&& is_checkpoint_step(new.last(), view, "checkpoint"@)
                &&& p_after == no_pending()
            } else {
                new == old && p_after == q
            }
        },
        None => {
            let n = if p.len == 0 {
                old.len()
            } else {
                old.len() + 1
            };
            let k = if key is Some {
                n + 1
            } else {
                n
            };
            &&& new.len() == k + (if checkpoint {
                1int
            } else {
                0
            })
            &&& flushed(old, r, p, new.subrange(0, n as int))
            &&& (key matches Some(fk) ==> is_key_step(new[n as int], fk))
            &&& (checkpoint ==> is_checkpoint_step(new.last(), view, "checkpoint"@))
            &&& p_after == no_pending() || (p.len == 0 && p_after == p)
        },
    }
}

impl FlowRecorder {
    /// Records a key (`key`: its flow key, if it has one) pressed or
    /// repeated; a released key records nothing. `due` tells whether a
    /// checkpoint's interval has passed; when one is taken, the checkpoint
    /// clock restarts.
    pub fn record_key_at(&mut self, pressed: bool, key: Option<FlowKey>, due: bool, view: &str)
        ensures
            !pressed ==> final(self).flow.steps == old(self).flow.steps && final(self).pending()
                == old(self).pending(),
            pressed ==> recorded_steps(
                old(self).flow.steps@,
                old(self).redaction,
                old(self).checkpoint_every_ms is Some,
                old(self).pending(),
                key,
                due,
                view@,
                final(self).flow.steps@,
                final(self).pending(),
            ),
            final(self).same_settings(old(self)),
    {
        if !pressed {
            return;
        }
        let tc = match key {
            Some(k) => k.text_char(),
            None => None,
        };
        if let Some(ch) = tc {
            self.push_text_char(ch);
            self.maybe_checkpoint(due, view);
            return;
        }
        let ghost p = self.pending();
        let ghost old_steps = self.flow.steps@;
        self.flush_text();
        let ghost n = self.flow.steps@.len();
        if let Some(fk) = key {
            let ghost before = self.flow.steps@;
            self.flow.steps.push(FlowStep::Key { key: fk, label: None });
            proof {
                assert(self.flow.steps@.drop_last() =~= before);
            }
        }
        let ghost before_cp = self.flow.steps@;
        self.maybe_checkpoint(due, view);
        proof {
            let new = self.flow.steps@;
            assert(new.subrange(0, n as int) =~= before_cp.subrange(0, n as int));
            if key is Some {
                assert(before_cp.subrange(0, n as int) =~= before_cp.drop_last());
                assert(new[n as int] == before_cp[n as int]);
            } else {
                assert(before_cp.subrange(0, n as int) =~= before_cp);
            }
        }
    }

    fn maybe_checkpoint(&mut self, due: bool, view: &str)
        ensures
            !(old(self).checkpoint_every_ms is Some && due) ==> final(self).flow.steps
                == old(self).flow.steps && final(self).pending() == old(self).pending(),
            old(self).checkpoint_every_ms is Some && due ==> final(self).flow.steps@.len() >= 1
                && flushed(
                old(self).flow.steps@,
                old(self).redaction,
                old(self).pending(),
                final(self).flow.steps@.drop_last(),
            ) && is_checkpoint_step(final(self).flow.steps@.last(), view@, "checkpoint"@) && (
            final(self).pending() == no_pending() || (old(self).pending_len == 0
                && final(self).pending() == old(self).pending())),
            final(self).same_settings(old(self)),
    {
        if self.checkpoint_every_ms.is_none() || !due {
            return;
        }
        self.flush_text();
        let ghost mid = self.flow.steps@;
        self.push_checkpoint(view, "checkpoint");
        self.last_checkpoint_at = crate::clock::instant_now();
    }

    /// Records a key, checking the checkpoint clock: a checkpoint is due
    /// once the interval has passed since the last one. What the clock
    /// reads is not known here, so either outcome may follow.
    pub fn record_key(&mut self, pressed: bool, key: Option<FlowKey>, view: &str)
        ensures
            !pressed ==> final(self).flow.steps == old(self).flow.steps && final(self).pending()
                == old(self).pending(),
            pressed ==> recorded_steps(
                old(self).flow.steps@,
                old(self).redaction,
                old(self).checkpoint_every_ms is Some,
                old(self).pending(),
                key,
                false,
                view@,
                final(self).flow.steps@,
                final(self).pending(),
            ) || recorded_steps(
                old(self).flow.steps@,
                old(self).redaction,
                old(self).checkpoint_every_ms is Some,
                old(self).pending(),
                key,
                true,
                view@,
                final(self).flow.steps@,
                final(self).pending(),
            ),
            final(self).same_settings(old(self)),
    {
        let due = match self.checkpoint_every_ms {
            Some(every) => crate::clock::elapsed_millis(&self.last_checkpoint_at) >= every as u128,
            None => false,
        };
        self.record_key_at(pressed, key, due, view);
    }

    /// Ends the recording: the waiting text becomes a step; with nothing
    /// recorded there is no flow to write; with checkpoints on, a "final"
    /// assertion of the view ends it.
    pub fn finish(self, view: &str) -> (r: Option<TuiFlow>)
        ensures
            ({
                let p = self.pending();
                let n = self.flow.steps@.len() + (if p.len == 0 {
                    0int
                } else {
                    1
                });
                match r {
                    None => n == 0,
                    Some(f) => {
                        &&& n > 0
                        &&& f.version == self.flow.version
                        &&& f.env == self.flow.env
                        &&& flushed(
                            self.flow.steps@,
                            self.redaction,
                            p,
                            f.steps@.subrange(0, n as int),
                        )
                        &&& if self.checkpoint_every_ms is Some {
                            f.steps@.len() == n + 1 && is_checkpoint_step(
                                f.steps@.last(),
                                view@,
                                "final"@,
                            )
                        } else {
                            f.steps@.len() == n
                        }
                    },
                }
            }),
    {
        let mut me = self;
        me.flush_text();
        if me.flow.steps.len() == 0 {
            return None;
        }
        let ghost flushed_steps = me.flow.steps@;
        if me.checkpoint_every_ms.is_some() {
            me.push_checkpoint(view, "final");
            proof {
                assert(me.flow.steps@.subrange(0, flushed_steps.len() as int) =~= flushed_steps);
            }
        } else {
            proof {
                assert(me.flow.steps@.subrange(0, flushed_steps.len() as int) =~= flushed_steps);
            }
        }
        Some(me.flow)
    }
}

/// What is waiting after typing `chars` with nothing waiting.
pub open spec fn typed(r: RecordRedaction, chars: Seq<char>) -> Pending
    decreases chars.len(),
{
    if chars.len() == 0 {
        no_pending()
    } else {
        pending_after_char(r, typed(r, chars.drop_last()), chars.last())
    }
}

/// Typed text is counted, and kept as typed, as one `*` per character, or
/// not at all, by the redaction; the hash and omit redactions keep the
/// characters only for the hash.
pub proof fn law_redaction_of_typed_text(r: RecordRedaction, chars: Seq<char>)
    requires
        chars.len() <= usize::MAX,
    ensures
        typed(r, chars).len == chars.len(),
        r == RecordRedaction::Plaintext ==> typed(r, chars).text == chars && typed(r, chars).raw
            == Seq::<char>::empty(),
        r == RecordRedaction::Hash ==> typed(r, chars).text == Seq::new(chars.len(), |i: int| '*')
            && typed(r, chars).raw == chars,
        r == RecordRedaction::Omit ==> typed(r, chars).text == Seq::<char>::empty() && typed(
            r,
            chars,
        ).raw == chars,
    decreases chars.len(),
{
    if chars.len() > 0 {
        let prev = chars.drop_last();
        law_redaction_of_typed_text(r, prev);
        assert(prev.push(chars.last()) =~= chars);
        if r == RecordRedaction::Hash {
            assert(Seq::new(prev.len(), |i: int| '*').push('*') =~= Seq::new(chars.len(), |i: int| '*'));
        }
    }
}

/// The step of text typed under the omit redaction records no character of
/// it, only its length.
pub proof fn law_omit_records_no_text(chars: Seq<char>)
    requires
        0 < chars.len() <= usize::MAX,
    ensures
        text_step_content(RecordRedaction::Omit, typed(RecordRedaction::Omit, chars))
            == (Seq::<char>::empty(), Some("redacted=omit len="@ + decimal(chars.len()))),
{
    law_redaction_of_typed_text(RecordRedaction::Omit, chars);
}

} // verus!
