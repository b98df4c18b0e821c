//! Decoded market-data frames.
//!
//! A frame is one decoded unit of market data for a single symbol: an
//! aggregated bar, a quote, or a trade. Prices and sizes are carried as
//! integers in the feed's smallest unit; timestamps are integers as well.
//! Frames are immutable once decoded.

use vstd::prelude::*;

verus! {

/// The kind of a market-data frame. Subscribers register for exactly one
/// kind; the three kinds are independently selectable in a subscription.
#[derive(Clone, Copy, Debug, PartialEq, Eq, Structural)]
pub enum FrameKind {
    Bar,
    Quote,
    Trade,
}

/// One aggregated price bar for a single symbol.
#[derive(Debug, PartialEq, Eq)]
pub struct Bar {
    pub symbol: String,
    pub open: u64,
    pub high: u64,
    pub low: u64,
    pub close: u64,
    pub volume: u64,
    pub timestamp: u64,
}

/// The best bid and ask for a single symbol at one instant.
#[derive(Debug, PartialEq, Eq)]
pub struct Quote {
    pub symbol: String,
    pub bid_price: u64,
    pub bid_size: u64,
    pub ask_price: u64,
    pub ask_size: u64,
    pub timestamp: u64,
}

/// One executed trade for a single symbol.
#[derive(Debug, PartialEq, Eq)]
pub struct Trade {
    pub symbol: String,
    pub price: u64,
    pub size: u64,
    pub timestamp: u64,
}

/// One decoded unit of market data.
#[derive(Debug, PartialEq, Eq)]
pub enum Frame {
    Bar(Bar),
    Quote(Quote),
    Trade(Trade),
}

impl Frame {
    /// The kind of this frame, as a specification-level value.
    pub open spec fn kind_spec(self) -> FrameKind {
        match self {
            Frame::Bar(_) => FrameKind::Bar,
            Frame::Quote(_) => FrameKind::Quote,
            Frame::Trade(_) => FrameKind::Trade,
        }
    }

    /// The symbol this frame is about, as a specification-level value.
    pub open spec fn symbol_spec(self) -> Seq<char> {
        match self {
            Frame::Bar(b) => b.symbol@,
            Frame::Quote(q) => q.symbol@,
            Frame::Trade(t) => t.symbol@,
        }
    }

    /// The kind of this frame.
    pub fn kind(&self) -> (k: FrameKind)
        ensures
            k == self.kind_spec(),
    {
        match self {
            Frame::Bar(_) => FrameKind::Bar,
            Frame::Quote(_) => FrameKind::Quote,
            Frame::Trade(_) => FrameKind::Trade,
        }
    }

    /// The symbol this frame is about.
    pub fn symbol(&self) -> (s: &String)
        ensures
            s@ == self.symbol_spec(),
    {
        match self {
            Frame::Bar(b) => &b.symbol,
            Frame::Quote(q) => &q.symbol,
            Frame::Trade(t) => &t.symbol,
        }
    }
}

impl Clone for Bar {
    /// A clone equals the value it was made from, field for field.
    fn clone(&self) -> (r: Self)
        ensures
            r == *self,
    {
        Bar {
            symbol: self.symbol.clone(),
            open: self.open,
            high: self.high,
            low: self.low,
            close: self.close,
            volume: self.volume,
            timestamp: self.timestamp,
        }
    }
}

impl Clone for Quote {
    /// A clone equals the value it was made from, field for field.
    fn clone(&self) -> (r: Self)
        ensures
            r == *self,
    {
        Quote {
            symbol: self.symbol.clone(),
            bid_price: self.bid_price,
            bid_size: self.bid_size,
            ask_price: self.ask_price,
            ask_size: self.ask_size,
            timestamp: self.timestamp,
        }
    }
}

impl Clone for Trade {
    /// A clone equals the value it was made from, field for field.
    fn clone(&self) -> (r: Self)
        ensures
            r == *self,
    {
        Trade {
            symbol: self.symbol.clone(),
            price: self.price,
            size: self.size,
            timestamp: self.timestamp,
        }
    }
}

impl Clone for Frame {
    /// A clone equals the value it was made from, variant and fields alike.
    fn clone(&self) -> (r: Self)
        ensures
            r == *self,
    {
        match self {
            Frame::Bar(b) => Frame::Bar(b.clone()),
            Frame::Quote(q) => Frame::Quote(q.clone()),
            Frame::Trade(t) => Frame::Trade(t.clone()),
        }
    }
}

} // verus!
