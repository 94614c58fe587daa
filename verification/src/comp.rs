//! The poll adapter: an encoding engine between a source that may not be
//! ready and the reader of the encoded frame.
//!
//! The adapter never touches the source and never waits. Its holder polls
//! the source's read-ahead region, hands in what the poll gave, and the
//! adapter says whether to suspend, to poll again or that bytes were delivered.

use vstd::prelude::*;
use crate::engine::Encoder;
use crate::error::{Error, Fault};
use crate::window::{OutputBuffer, Window};

verus! {

/// What polling the source's read-ahead region gave.
#[derive(Clone, Copy, Debug)]
pub enum SourcePoll<'a> {
    /// The source has nothing yet and will wake the caller.
    NotReady,
    /// The region the source has buffered; empty once the source has ended.
    Ready(&'a [u8]),
}

impl<'a> SourcePoll<'a> {
    /// The length of the region, where the source was ready.
    pub open spec fn offered(&self) -> Option<usize> {
        match *self {
            SourcePoll::NotReady => None,
            SourcePoll::Ready(region) => Some(region@.len() as usize),
        }
    }
}

/// How one poll of the adapter ended.
#[derive(Clone, Copy, Debug, PartialEq, Eq, Structural)]
pub enum PollStep {
    /// The source was not ready: suspend. Nothing has changed.
    Pending,
    /// The engine took the whole region of `used` bytes and has nothing to
    /// hand over yet. Mark them consumed at the source and poll again.
    Again { used: usize },
    /// `len` bytes were delivered. Mark `used` bytes consumed at the source.
    Ready { used: usize, len: usize },
}

/// What taking in the engine's answer returns.
pub open spec fn encode_result(answer: Result<Vec<u8>, Fault>) -> Result<(), Error> {
    match answer {
        Ok(_) => Ok(()),
        Err(fault) => Err(Error::Encode(fault)),
    }
}

/// The window once the engine's answer has been taken in: the bytes of an
/// answer go behind what was held, a failure changes nothing.
pub open spec fn encode_window(w: Window, answer: Result<Vec<u8>, Fault>) -> Window {
    match answer {
        Ok(bytes) => w.append(bytes@),
        Err(_) => w,
    }
}

/// Whether the frame is closed once the engine has answered a region of
/// `offered` bytes: an answer to an empty region closes it, an answer to
/// input opens it again, a failure changes nothing.
pub open spec fn encode_finished(
    finished: bool,
    offered: usize,
    answer: Result<Vec<u8>, Fault>,
) -> bool {
    match answer {
        Ok(_) => offered == 0,
        Err(_) => finished,
    }
}

/// The engine is asked in every poll that finds the source ready, except to
/// close a frame that is closed already.
pub open spec fn poll_feeds(finished: bool, source: Option<usize>) -> bool {
    source matches Some(offered) && (offered > 0 || !finished)
}

/// The window once the engine's answer has been taken in.
pub open spec fn poll_filled(
    w: Window,
    finished: bool,
    source: Option<usize>,
    answer: Result<Vec<u8>, Fault>,
) -> Window {
    if poll_feeds(finished, source) {
        encode_window(w, answer)
    } else {
        w
    }
}

/// A poll that took `used` bytes from the source hands bytes over at the end
/// of the input, and before it as soon as there is a byte to hand over.
pub open spec fn hands_over(w: Window, used: usize) -> bool {
    used == 0 || w.pending().len() > 0
}

/// A poll delivers when the source was ready, the engine did not fail, and
/// the window it filled hands over.
pub open spec fn poll_delivers(
    w: Window,
    finished: bool,
    source: Option<usize>,
    answer: Result<Vec<u8>, Fault>,
) -> bool {
    &&& source matches Some(offered)
    &&& !(poll_feeds(finished, source) && answer is Err)
    &&& hands_over(poll_filled(w, finished, source, answer), offered)
}

/// What one poll for `want` bytes returns.
pub open spec fn poll_result(
    w: Window,
    finished: bool,
    source: Option<usize>,
    answer: Result<Vec<u8>, Fault>,
    want: nat,
) -> Result<PollStep, Error> {
    match source {
        None => Ok(PollStep::Pending),
        Some(offered) => if poll_feeds(finished, source) && answer is Err {
            Err(Error::Encode(answer->Err_0))
        } else if poll_delivers(w, finished, source, answer) {
            Ok(
                PollStep::Ready {
                    used: offered,
                    len: poll_filled(w, finished, source, answer).grant(want) as usize,
                },
            )
        } else {
            Ok(PollStep::Again { used: offered })
        },
    }
}

/// The window after one poll for `want` bytes.
pub open spec fn poll_window(
    w: Window,
    finished: bool,
    source: Option<usize>,
    answer: Result<Vec<u8>, Fault>,
    want: nat,
) -> Window {
    let filled = poll_filled(w, finished, source, answer);
    if poll_delivers(w, finished, source, answer) {
        filled.advance(filled.grant(want))
    } else {
        filled
    }
}

/// Whether the frame is closed after one poll: closing it closes it, and
/// feeding the engine opens it again.
pub open spec fn poll_finished(
    finished: bool,
    source: Option<usize>,
    answer: Result<Vec<u8>, Fault>,
) -> bool {
    match source {
        Some(offered) if poll_feeds(finished, source) => encode_finished(finished, offered, answer),
        _ => finished,
    }
}

/// The destination after one poll into `dst`.
pub open spec fn poll_bytes(
    w: Window,
    finished: bool,
    source: Option<usize>,
    answer: Result<Vec<u8>, Fault>,
    dst: Seq<u8>,
) -> Seq<u8> {
    let filled = poll_filled(w, finished, source, answer);
    if poll_delivers(w, finished, source, answer) {
        filled.granted(dst.len()) + dst.skip(filled.grant(dst.len()) as int)
    } else {
        dst
    }
}

/// The poll adapter for the encoding direction.
pub struct AsyncReadCompressor<E: Encoder> {
    engine: E,
    out: OutputBuffer,
    finished: bool,
}

impl<E: Encoder> AsyncReadCompressor<E> {
    /// The output window: what the engine has encoded and the cursor in it.
    pub closed spec fn window(&self) -> Window {
        self.out@
    }

    /// Whether the frame has been closed since the engine was last fed.
    pub closed spec fn finished(&self) -> bool {
        self.finished
    }

    /// The engine the adapter owns.
    pub closed spec fn engine(&self) -> E {
        self.engine
    }

    /// The cursor invariant of the output window.
    pub open spec fn wf(&self) -> bool {
        self.window().wf()
    }

    /// What creating an adapter makes of the attempt to create its engine: a
    /// fresh adapter round the engine, with nothing in the window and the
    /// frame not closed, or the engine's diagnostic as an initialization
    /// failure.
    pub open spec fn created(made: Result<E, Fault>, r: Result<Self, Error>) -> bool {
        match made {
            Ok(engine) => r matches Ok(adapter) && adapter.engine() == engine
                && adapter.window() == Window::empty() && !adapter.finished(),
            Err(fault) => r matches Err(e) && e == Error::Init(fault),
        }
    }

    /// Wraps what the attempt to create an engine gave.
    pub fn from_engine(made: Result<E, Fault>) -> (r: Result<Self, Error>)
        ensures
            Self::created(made, r),
            r matches Ok(adapter) ==> adapter.wf(),
    {
        match made {
            Ok(engine) => Ok(
                AsyncReadCompressor { engine, out: OutputBuffer::new(), finished: false },
            ),
            Err(fault) => Err(Error::Init(fault)),
        }
    }

    /// Creates an adapter whose engine encodes with the given preferences,
    /// which are handed to the engine as they are. Fails exactly where the
    /// engine cannot be created, with the engine's diagnostic.
    pub fn new(prefs: E::Preferences) -> (r: Result<Self, Error>)
        ensures
            exists|made: Result<E, Fault>|
                #![trigger call_ensures(E::create, (prefs,), made)]
                call_ensures(E::create, (prefs,), made) && Self::created(made, r),
            r matches Ok(adapter) ==> adapter.wf(),
    {
        let made = E::create(prefs);
        let ghost given = made;
        let r = Self::from_engine(made);
        proof {
            assert(call_ensures(E::create, (prefs,), given) && Self::created(given, r));
        }
        r
    }

    /// Creates an adapter whose engine encodes against a dictionary; the
    /// preferences and the dictionary are handed to the engine as they are.
    /// Fails exactly where the engine cannot be created, with the engine's
    /// diagnostic.
    pub fn with_dict(prefs: E::Preferences, dict: &[u8]) -> (r: Result<Self, Error>)
        ensures
            exists|made: Result<E, Fault>|
                #![trigger call_ensures(E::create_with_dict, (prefs, dict), made)]
                call_ensures(E::create_with_dict, (prefs, dict), made) && Self::created(made, r),
            r matches Ok(adapter) ==> adapter.wf(),
    {
        let made = E::create_with_dict(prefs, dict);
        let ghost given = made;
        let r = Self::from_engine(made);
        proof {
            assert(call_ensures(E::create_with_dict, (prefs, dict), given) && Self::created(
                given,
                r,
            ));
        }
        r
    }

    /// Takes the engine's answer to a ready region of `offered` bytes into
    /// the window and notes whether the frame is now closed.
    pub fn absorb(&mut self, offered: usize, answer: Result<Vec<u8>, Fault>) -> (r: Result<
        (),
        Error,
    >)
        requires
            old(self).wf(),
        ensures
            r == encode_result(answer),
            final(self).window() == encode_window(old(self).window(), answer),
            final(self).finished() == encode_finished(old(self).finished(), offered, answer),
            final(self).wf(),
            final(self).engine() == old(self).engine(),
    {
        match answer {
            Err(fault) => Err(Error::Encode(fault)),
            Ok(bytes) => {
                self.out.append(bytes.as_slice());
                self.finished = offered == 0;
                Ok(())
            },
        }
    }

    /// Ends a poll that found the source ready with `used` bytes: at the end
    /// of the input, or with bytes to hand over, up to `dst.len()` pending
    /// bytes are copied to the front of `dst` and given up.
    pub fn hand_over(&mut self, used: usize, dst: &mut [u8]) -> (step: PollStep)
        requires
            old(self).wf(),
        ensures
            step == (if hands_over(old(self).window(), used) {
                PollStep::Ready {
                    used,
                    len: old(self).window().grant(old(dst)@.len()) as usize,
                }
            } else {
                PollStep::Again { used }
            }),
            final(self).window() == (if hands_over(old(self).window(), used) {
                old(self).window().advance(old(self).window().grant(old(dst)@.len()))
            } else {
                old(self).window()
            }),
            final(dst)@ == (if hands_over(old(self).window(), used) {
                old(self).window().granted(old(dst)@.len()) + old(dst)@.skip(
                    old(self).window().grant(old(dst)@.len()) as int,
                )
            } else {
                old(dst)@
            }),
            final(self).finished() == old(self).finished(),
            final(self).wf(),
            final(self).engine() == old(self).engine(),
    {
        if used == 0 || self.out.len() > self.out.consumed() {
            let len: usize = self.out.read(dst);
            PollStep::Ready { used, len }
        } else {
            PollStep::Again { used }
        }
    }

    /// One poll for up to `dst.len()` bytes of the encoded frame.
    ///
    /// A source that is not ready suspends the poll and changes nothing. A
    /// ready region is handed to the engine whole, to be encoded; an empty
    /// one has the engine close the frame, once. The engine's answer decides
    /// the rest, as the `poll_*` functions say. A poll with room in `dst`
    /// delivers nothing only when the input has ended and every byte of the
    /// closed frame has been handed over.
    pub fn poll_read(&mut self, source: SourcePoll<'_>, dst: &mut [u8]) -> (r: Result<
        PollStep,
        Error,
    >)
        requires
            old(self).wf(),
        ensures
            (exists|answer: Result<Vec<u8>, Fault>|
                #![trigger poll_result(old(self).window(), old(self).finished(), source.offered(), answer, old(dst)@.len())]
                {
                    &&& r == poll_result(
                        old(self).window(),
                        old(self).finished(),
                        source.offered(),
                        answer,
                        old(dst)@.len(),
                    )
                    &&& final(self).window() == poll_window(
                        old(self).window(),
                        old(self).finished(),
                        source.offered(),
                        answer,
                        old(dst)@.len(),
                    )
                    &&& final(self).finished() == poll_finished(
                        old(self).finished(),
                        source.offered(),
                        answer,
                    )
                    &&& final(dst)@ == poll_bytes(
                        old(self).window(),
                        old(self).finished(),
                        source.offered(),
                        answer,
                        old(dst)@,
                    )
                    &&& match source {
                        SourcePoll::NotReady => final(self).engine() == old(self).engine(),
                        SourcePoll::Ready(region) => if region@.len() > 0 {
                            (exists|engine: &mut E|
                                #![trigger call_ensures(E::encode, (engine, region), answer)]
                                {
                                    &&& *engine == old(self).engine()
                                    &&& *final(engine) == final(self).engine()
                                    &&& call_ensures(E::encode, (engine, region), answer)
                                })
                        } else if !old(self).finished() {
                            (exists|engine: &mut E|
                                #![trigger call_ensures(E::finish, (engine,), answer)]
                                {
                                    &&& *engine == old(self).engine()
                                    &&& *final(engine) == final(self).engine()
                                    &&& call_ensures(E::finish, (engine,), answer)
                                })
                        } else {
                            final(self).engine() == old(self).engine()
                        },
                    }
                }),
            source is NotReady ==> r == Ok::<PollStep, Error>(PollStep::Pending) && *final(self)
                == *old(self) && final(dst)@ == old(dst)@,
            r matches Ok(PollStep::Again { used }) ==> used > 0 && source.offered() == Some(used),
            r matches Ok(PollStep::Ready { used, len }) ==> source.offered() == Some(used) && (len
                == 0 && old(dst)@.len() > 0 ==> used == 0 && final(self).finished()
                && final(self).window() == Window::empty()),
            final(self).wf(),
    {
        proof {
            assert(old(dst)@.len() == old(dst).len());
        }
        let ghost idle: Result<Vec<u8>, Fault> = Err(Fault { code: 0 });
        match source {
            SourcePoll::NotReady => {
                let r = Ok(PollStep::Pending);
                proof {
                    assert(r == poll_result(
                        old(self).window(),
                        old(self).finished(),
                        source.offered(),
                        idle,
                        old(dst)@.len(),
                    ));
                }
                r
            },
            SourcePoll::Ready(region) => {
                let used: usize = region.len();
                if used > 0 || !self.finished {
                    let answer = if used > 0 {
                        self.engine.encode(region)
                    } else {
                        self.engine.finish()
                    };
                    let ghost given = answer;
                    let r = match self.absorb(used, answer) {
                        Err(e) => Err(e),
                        Ok(()) => Ok(self.hand_over(used, dst)),
                    };
                    proof {
                        assert(r == poll_result(
                            old(self).window(),
                            old(self).finished(),
                            source.offered(),
                            given,
                            old(dst)@.len(),
                        ));
                    }
                    r
                } else {
                    let r = Ok(self.hand_over(used, dst));
                    proof {
                        assert(r == poll_result(
                            old(self).window(),
                            old(self).finished(),
                            source.offered(),
                            idle,
                            old(dst)@.len(),
                        ));
                    }
                    r
                }
            },
        }
    }
}

} // verus!
