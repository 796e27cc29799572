//! Fixed-size network address values. On the wire each is its raw octet
//! string in address order, untouched by the requested word byte-order.

use vstd::prelude::*;

verus! {

/// A version-4 network address: four octets, in address order.
#[derive(Clone, Copy, PartialEq, Eq, Structural, Debug)]
pub struct Ipv4 {
    pub o0: u8,
    pub o1: u8,
    pub o2: u8,
    pub o3: u8,
}

impl Ipv4 {
    /// The four octets, in address order.
    pub open spec fn octets_spec(&self) -> Seq<u8> {
        seq![self.o0, self.o1, self.o2, self.o3]
    }

    pub fn new(o0: u8, o1: u8, o2: u8, o3: u8) -> (a: Ipv4)
        ensures
            a == (Ipv4 { o0, o1, o2, o3 }),
    {
        Ipv4 { o0, o1, o2, o3 }
    }

    /// The four octets as a byte string, in address order.
    pub fn octet_vec(&self) -> (b: Vec<u8>)
        ensures
            b@ == self.octets_spec(),
    {
        let mut b: Vec<u8> = Vec::new();
        b.push(self.o0);
        b.push(self.o1);
        b.push(self.o2);
        b.push(self.o3);
        proof {
            assert(b@ =~= self.octets_spec());
        }
        b
    }
}

/// A version-6 network address: sixteen octets, in address order.
#[derive(Clone, Copy, PartialEq, Eq, Structural, Debug)]
pub struct Ipv6 {
    pub o0: u8,
    pub o1: u8,
    pub o2: u8,
    pub o3: u8,
    pub o4: u8,
    pub o5: u8,
    pub o6: u8,
    pub o7: u8,
    pub o8: u8,
    pub o9: u8,
    pub o10: u8,
    pub o11: u8,
    pub o12: u8,
    pub o13: u8,
    pub o14: u8,
    pub o15: u8,
}

impl Ipv6 {
    /// The sixteen octets, in address order.
    pub open spec fn octets_spec(&self) -> Seq<u8> {
        seq![
            self.o0,
            self.o1,
            self.o2,
            self.o3,
            self.o4,
            self.o5,
            self.o6,
            self.o7,
            self.o8,
            self.o9,
            self.o10,
            self.o11,
            self.o12,
            self.o13,
            self.o14,
            self.o15,
        ]
    }

    /// Builds an address from its sixteen octets, in address order.
    pub fn from_octets(octets: &Vec<u8>) -> (a: Ipv6)
        requires
            octets@.len() == 16,
        ensures
            a.octets_spec() == octets@,
    {
        let a = Ipv6 {
            o0: octets[0],
            o1: octets[1],
            o2: octets[2],
            o3: octets[3],
            o4: octets[4],
            o5: octets[5],
            o6: octets[6],
            o7: octets[7],
            o8: octets[8],
            o9: octets[9],
            o10: octets[10],
            o11: octets[11],
            o12: octets[12],
            o13: octets[13],
            o14: octets[14],
            o15: octets[15],
        };
        proof {
            assert(a.octets_spec() =~= octets@);
        }
        a
    }

    /// The sixteen octets as a byte string, in address order.
    pub fn octet_vec(&self) -> (b: Vec<u8>)
        ensures
            b@ == self.octets_spec(),
    {
        let mut b: Vec<u8> = Vec::new();
        b.push(self.o0);
        b.push(self.o1);
        b.push(self.o2);
        b.push(self.o3);
        b.push(self.o4);
        b.push(self.o5);
        b.push(self.o6);
        b.push(self.o7);
        b.push(self.o8);
        b.push(self.o9);
        b.push(self.o10);
        b.push(self.o11);
        b.push(self.o12);
        b.push(self.o13);
        b.push(self.o14);
        b.push(self.o15);
        proof {
            assert(b@ =~= self.octets_spec());
        }
        b
    }
}

} // verus!
