//! In-memory capture sinks and the output streams wired around them.
use vstd::prelude::*;

verus! {

/// An append-only byte accumulator standing in for a real output stream.
pub struct Capture {
    bytes: Vec<u8>,
}

impl View for Capture {
    type V = Seq<u8>;

    closed spec fn view(&self) -> Seq<u8> {
        self.bytes@
    }
}

impl Capture {
    /// An empty sink.
    pub fn new() -> (r: Capture)
        ensures
            r@ == Seq::<u8>::empty(),
    {
        Capture { bytes: Vec::new() }
    }

    /// Appends `data` after what was written before.
    pub fn write(&mut self, data: &[u8])
        ensures
            final(self)@ == old(self)@ + data@,
    {
        let mut i: usize = 0;
        while i < data.len()
            invariant
                i <= data@.len(),
                self@ == old(self)@ + data@.take(i as int),
            decreases data@.len() - i,
        {
            self.bytes.push(data[i]);
            proof {
                assert(data@.take(i + 1) =~= data@.take(i as int).push(data@[i as int]));
            }
            i = i + 1;
        }
        proof {
            assert(data@.take(data@.len() as int) =~= data@);
        }
    }

    /// Everything written so far, in order.
    pub fn contents(&self) -> (r: &[u8])
        ensures
            r@ == self@,
    {
        self.bytes.as_slice()
    }
}

/// What an output stream is: the bytes its sink has received and the two
/// signals it was wired with.
pub struct StreamView {
    pub captured: Seq<u8>,
    pub colors: bool,
    pub terminal: bool,
}

/// A capture sink together with a color-enabled signal and a terminal signal.
/// Bytes written to the stream reach the sink unchanged; whoever writes asks
/// `colors_enabled` to decide whether to add styling.
pub struct OutputStream {
    sink: Capture,
    colors: bool,
    terminal: bool,
}

impl View for OutputStream {
    type V = StreamView;

    closed spec fn view(&self) -> StreamView {
        StreamView { captured: self.sink@, colors: self.colors, terminal: self.terminal }
    }
}

impl OutputStream {
    /// A stream writing to `sink`, with the given color and terminal signals.
    pub fn new(sink: Capture, colors: bool, terminal: bool) -> (r: OutputStream)
        ensures
            r@ == (StreamView { captured: sink@, colors, terminal }),
    {
        OutputStream { sink, colors, terminal }
    }

    /// Whether styling may be emitted on this stream.
    pub fn colors_enabled(&self) -> (r: bool)
        ensures
            r == self@.colors,
    {
        self.colors
    }

    /// Whether this stream behaves as if attached to a terminal.
    pub fn is_terminal(&self) -> (r: bool)
        ensures
            r == self@.terminal,
    {
        self.terminal
    }

    /// Passes `data` on to the sink.
    pub fn write(&mut self, data: &[u8])
        ensures
            final(self)@ == (StreamView { captured: old(self)@.captured + data@, ..old(self)@ }),
    {
        self.sink.write(data);
    }

    /// The bytes the sink has received.
    pub fn captured(&self) -> (r: &[u8])
        ensures
            r@ == self@.captured,
    {
        self.sink.contents()
    }
}

} // verus!
