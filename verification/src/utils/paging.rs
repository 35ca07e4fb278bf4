use vstd::prelude::*;

verus! {

/// How two addresses relate by page.
#[derive(PartialEq, Eq, Structural, Debug, Clone, Copy)]
pub enum PageCross {
    Same,
    Backwards,
    Forwards,
}

/// The page of an address: its upper byte. 0xf0cc is on page 0xf0, 0x00ff on
/// page 0x00. Each page holds 256 addresses.
pub open spec fn spec_page(addr: u16) -> u8 {
    (addr as int / 256) as u8
}

/// How the page of `addr2` relates to the page of `addr1`.
pub open spec fn spec_page_cross(addr1: u16, addr2: u16) -> PageCross {
    if spec_page(addr1) > spec_page(addr2) {
        PageCross::Backwards
    } else if spec_page(addr1) < spec_page(addr2) {
        PageCross::Forwards
    } else {
        PageCross::Same
    }
}

/// Gets the page for addr, which is the upper byte.
pub fn page(addr: u16) -> (r: u8)
    ensures
        r == spec_page(addr),
{
    let r = (addr >> 8u16) as u8;
    assert(r == addr / 256) by (bit_vector)
        requires
            r == (addr >> 8u16) as u8,
    ;
    r
}

/// Determines whether addr1 and addr2 are on the same page, or whether going
/// from addr1 to addr2 crosses a page boundary backwards or forwards.
pub fn page_cross(addr1: u16, addr2: u16) -> (r: PageCross)
    ensures
        r == spec_page_cross(addr1, addr2),
{
    let page1 = page(addr1);
    let page2 = page(addr2);
    if page1 > page2 {
        PageCross::Backwards
    } else if page1 < page2 {
        PageCross::Forwards
    } else {
        PageCross::Same
    }
}

impl PageCross {
    /// The name of the variant.
    pub fn name(&self) -> (r: &'static str)
        ensures
            *self is Same ==> r@ == "Same"@,
            *self is Backwards ==> r@ == "Backwards"@,
            *self is Forwards ==> r@ == "Forwards"@,
    {
        match self {
            PageCross::Same => "Same",
            PageCross::Backwards => "Backwards",
            PageCross::Forwards => "Forwards",
        }
    }
}

/// Two addresses are on the same page exactly when their upper bytes agree,
/// and going from a to b crosses forwards exactly when going from b to a
/// crosses backwards.
pub proof fn lemma_page_cross_symmetry(addr1: u16, addr2: u16)
    ensures
        (spec_page_cross(addr1, addr2) == PageCross::Same) == (addr1 as int / 256 == addr2 as int
            / 256),
        (spec_page_cross(addr1, addr2) == PageCross::Forwards) == (spec_page_cross(addr2, addr1)
            == PageCross::Backwards),
{
}

} // verus!
