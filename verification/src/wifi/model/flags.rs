//! The capability flags of a scanned network.

use vstd::prelude::*;
use vstd::std_specs::iter::IteratorSpec;
use vstd::string::*;
use crate::text::{is_whitespace, push_char, str_eq, to_uppercase, uppercase, white_space};

verus! {

/// One capability that an access point announces.
#[derive(Debug, PartialEq, Eq, PartialOrd, Ord)]
pub enum WifiFlag {
    Wpa,
    Wpa2,
    Wpa3,
    /// Pre-shared key.
    Psk,
    /// Enterprise login.
    Eap,
    /// AES encryption.
    Ccmp,
    /// Legacy encryption.
    Tkip,
    /// Infrastructure mode.
    Ess,
    /// Ad-hoc mode.
    Ibss,
    /// Wi-Fi Protected Setup.
    Wps,
    /// A capability that has no name here, as announced.
    Other(String),
}

/// What a flag holds.
pub enum WifiFlagView {
    Wpa,
    Wpa2,
    Wpa3,
    Psk,
    Eap,
    Ccmp,
    Tkip,
    Ess,
    Ibss,
    Wps,
    Other(Seq<char>),
}

impl View for WifiFlag {
    type V = WifiFlagView;

    open spec fn view(&self) -> WifiFlagView {
        match self {
            WifiFlag::Wpa => WifiFlagView::Wpa,
            WifiFlag::Wpa2 => WifiFlagView::Wpa2,
            WifiFlag::Wpa3 => WifiFlagView::Wpa3,
            WifiFlag::Psk => WifiFlagView::Psk,
            WifiFlag::Eap => WifiFlagView::Eap,
            WifiFlag::Ccmp => WifiFlagView::Ccmp,
            WifiFlag::Tkip => WifiFlagView::Tkip,
            WifiFlag::Ess => WifiFlagView::Ess,
            WifiFlag::Ibss => WifiFlagView::Ibss,
            WifiFlag::Wps => WifiFlagView::Wps,
            WifiFlag::Other(name) => WifiFlagView::Other(name@),
        }
    }
}

impl Clone for WifiFlag {
    fn clone(&self) -> (copy: Self)
        ensures
            copy@ == self@,
    {
        match self {
            WifiFlag::Wpa => WifiFlag::Wpa,
            WifiFlag::Wpa2 => WifiFlag::Wpa2,
            WifiFlag::Wpa3 => WifiFlag::Wpa3,
            WifiFlag::Psk => WifiFlag::Psk,
            WifiFlag::Eap => WifiFlag::Eap,
            WifiFlag::Ccmp => WifiFlag::Ccmp,
            WifiFlag::Tkip => WifiFlag::Tkip,
            WifiFlag::Ess => WifiFlag::Ess,
            WifiFlag::Ibss => WifiFlag::Ibss,
            WifiFlag::Wps => WifiFlag::Wps,
            WifiFlag::Other(name) => WifiFlag::Other(name.clone()),
        }
    }
}

impl WifiFlag {
    /// The flag that a word stands for, given the word in upper case.
    pub fn classify(upper: &str, word: String) -> (flag: WifiFlag)
        ensures
            flag@ == flag_of(upper@, word@),
    {
        if str_eq(upper, "WPA") {
            WifiFlag::Wpa
        } else if str_eq(upper, "WPA2") {
            WifiFlag::Wpa2
        } else if str_eq(upper, "WPA3") {
            WifiFlag::Wpa3
        } else if str_eq(upper, "PSK") {
            WifiFlag::Psk
        } else if str_eq(upper, "EAP") {
            WifiFlag::Eap
        } else if str_eq(upper, "CCMP") {
            WifiFlag::Ccmp
        } else if str_eq(upper, "TKIP") {
            WifiFlag::Tkip
        } else if str_eq(upper, "ESS") {
            WifiFlag::Ess
        } else if str_eq(upper, "IBSS") {
            WifiFlag::Ibss
        } else if str_eq(upper, "WPS") {
            WifiFlag::Wps
        } else {
            WifiFlag::Other(word)
        }
    }

    /// The flag that a word stands for.
    pub fn named(word: String) -> (flag: WifiFlag)
        ensures
            flag@ == flag_named(word@),
    {
        let upper = to_uppercase(word.as_str());
        Self::classify(upper.as_str(), word)
    }

    /// Reads the flags of a scan result. Brackets, hyphens and white space
    /// part the words; each word is one flag.
    pub fn parse_wifi_flags(raw_flags: &str) -> (flags: WifiFlags)
        ensures
            flags@ == parsed_flags(raw_flags@),
    {
        let mut flags = WifiFlags::new();
        let mut word = String::new();
        for c in it: raw_flags.chars()
            invariant
                it.seq() == raw_flags@,
                (flags@, word@) == scanned(raw_flags@.take(it.index() as int)),
        {
            proof {
                let before = raw_flags@.take(it.index() as int);
                let after = raw_flags@.take(it.index() + 1);
                assert(after.drop_last() =~= before);
                assert(after.last() == c);
            }
            if c == '[' {
            } else if c == ']' || c == '-' || is_whitespace(c) {
                if !word.as_str().is_empty() {
                    flags.insert(WifiFlag::named(word));
                }
                word = String::new();
            } else {
                push_char(&mut word, c);
            }
        }
        assert(raw_flags@.take(raw_flags@.len() as int) =~= raw_flags@);
        if !word.as_str().is_empty() {
            flags.insert(WifiFlag::named(word));
        }
        flags
    }

    /// Whether two flags are the same capability.
    pub fn same(&self, other: &WifiFlag) -> (same: bool)
        ensures
            same == (self@ == other@),
    {
        match (self, other) {
            (WifiFlag::Wpa, WifiFlag::Wpa) => true,
            (WifiFlag::Wpa2, WifiFlag::Wpa2) => true,
            (WifiFlag::Wpa3, WifiFlag::Wpa3) => true,
            (WifiFlag::Psk, WifiFlag::Psk) => true,
            (WifiFlag::Eap, WifiFlag::Eap) => true,
            (WifiFlag::Ccmp, WifiFlag::Ccmp) => true,
            (WifiFlag::Tkip, WifiFlag::Tkip) => true,
            (WifiFlag::Ess, WifiFlag::Ess) => true,
            (WifiFlag::Ibss, WifiFlag::Ibss) => true,
            (WifiFlag::Wps, WifiFlag::Wps) => true,
            (WifiFlag::Other(a), WifiFlag::Other(b)) => str_eq(a.as_str(), b.as_str()),
            _ => false,
        }
    }
}

/// The flag that a word stands for, given the word in upper case: the
/// capability that the upper-case form names, or the word as it is written
/// where it names none.
pub open spec fn flag_of(upper: Seq<char>, word: Seq<char>) -> WifiFlagView {
    if upper == "WPA"@ {
        WifiFlagView::Wpa
    } else if upper == "WPA2"@ {
        WifiFlagView::Wpa2
    } else if upper == "WPA3"@ {
        WifiFlagView::Wpa3
    } else if upper == "PSK"@ {
        WifiFlagView::Psk
    } else if upper == "EAP"@ {
        WifiFlagView::Eap
    } else if upper == "CCMP"@ {
        WifiFlagView::Ccmp
    } else if upper == "TKIP"@ {
        WifiFlagView::Tkip
    } else if upper == "ESS"@ {
        WifiFlagView::Ess
    } else if upper == "IBSS"@ {
        WifiFlagView::Ibss
    } else if upper == "WPS"@ {
        WifiFlagView::Wps
    } else {
        WifiFlagView::Other(word)
    }
}

/// The flag that a word of a scan result stands for. The word is read
/// without regard to case.
pub open spec fn flag_named(word: Seq<char>) -> WifiFlagView {
    flag_of(uppercase(word), word)
}

/// Whether a character ends a word of a scan result: a closing bracket, a
/// hyphen or white space.
pub open spec fn ends_word(c: char) -> bool {
    c == ']' || c == '-' || white_space(c)
}

/// A set of flags with the flag of one more word; an empty word adds
/// nothing.
pub open spec fn with_word(flags: Set<WifiFlagView>, word: Seq<char>) -> Set<WifiFlagView> {
    if word.len() == 0 {
        flags
    } else {
        flags.insert(flag_named(word))
    }
}

/// The flags of the words that end within a text, and the word that the text
/// ends in. An opening bracket belongs to no word and ends none.
pub open spec fn scanned(raw: Seq<char>) -> (Set<WifiFlagView>, Seq<char>)
    decreases raw.len(),
{
    if raw.len() == 0 {
        (Set::empty(), Seq::empty())
    } else {
        let (flags, word) = scanned(raw.drop_last());
        let c = raw.last();
        if c == '[' {
            (flags, word)
        } else if ends_word(c) {
            (with_word(flags, word), Seq::empty())
        } else {
            (flags, word.push(c))
        }
    }
}

/// The flags that a scan result announces, as in `[WPA2-PSK-CCMP][ESS]`.
pub open spec fn parsed_flags(raw: Seq<char>) -> Set<WifiFlagView> {
    with_word(scanned(raw).0, scanned(raw).1)
}

/// The flags in a list.
pub open spec fn flags_in(list: Seq<WifiFlag>) -> Set<WifiFlagView> {
    list.map_values(|flag: WifiFlag| flag@).to_set()
}

/// A set of flags.
#[derive(Debug)]
pub struct WifiFlags {
    list: Vec<WifiFlag>,
}

impl View for WifiFlags {
    type V = Set<WifiFlagView>;

    closed spec fn view(&self) -> Set<WifiFlagView> {
        flags_in(self.list@)
    }
}

impl Clone for WifiFlags {
    fn clone(&self) -> (copy: Self)
        ensures
            copy@ == self@,
    {
        proof {
            use_type_invariant(self);
        }
        let mut list: Vec<WifiFlag> = Vec::new();
        let mut i: usize = 0;
        while i < self.list.len()
            invariant
                i <= self.list@.len(),
                list@.len() == i,
                forall|j: int| 0 <= j < i ==> (#[trigger] list@[j])@ == self.list@[j]@,
            decreases self.list@.len() - i,
        {
            list.push(self.list[i].clone());
            i = i + 1;
        }
        assert(list@.map_values(|flag: WifiFlag| flag@) =~= self.list@.map_values(
            |flag: WifiFlag| flag@,
        ));
        WifiFlags { list }
    }
}

impl WifiFlags {
    #[verifier::type_invariant]
    spec fn no_flag_twice(&self) -> bool {
        self.list@.map_values(|flag: WifiFlag| flag@).no_duplicates()
    }

    /// The empty set.
    pub fn new() -> (flags: Self)
        ensures
            flags@ == Set::<WifiFlagView>::empty(),
    {
        let flags = WifiFlags { list: Vec::new() };
        assert(flags@ =~= Set::<WifiFlagView>::empty());
        flags
    }

    /// Whether the flag is in the set.
    pub fn contains(&self, flag: &WifiFlag) -> (found: bool)
        ensures
            found == self@.contains(flag@),
    {
        let ghost views = self.list@.map_values(|flag: WifiFlag| flag@);
        let mut i: usize = 0;
        while i < self.list.len()
            invariant
                i <= self.list@.len(),
                views == self.list@.map_values(|flag: WifiFlag| flag@),
                forall|j: int| 0 <= j < i ==> (#[trigger] views[j]) != flag@,
            decreases self.list@.len() - i,
        {
            if self.list[i].same(flag) {
                assert(views[i as int] == flag@);
                return true;
            }
            i = i + 1;
        }
        false
    }

    /// Adds a flag. Returns whether the flag is new to the set.
    pub fn insert(&mut self, flag: WifiFlag) -> (added: bool)
        ensures
            final(self)@ == old(self)@.insert(flag@),
            added == !old(self)@.contains(flag@),
    {
        proof {
            use_type_invariant(&*self);
        }
        if self.contains(&flag) {
            assert(self@.insert(flag@) =~= self@);
            false
        } else {
            let ghost before = self.list@.map_values(|flag: WifiFlag| flag@);
            let mut list = Vec::new();
            std::mem::swap(&mut list, &mut self.list);
            list.push(flag);
            proof {
                let after = list@.map_values(|flag: WifiFlag| flag@);
                assert(after =~= before.push(flag@));
                assert(after.no_duplicates()) by {
                    assert forall|a: int, b: int| 0 <= a < after.len() && 0 <= b < after.len() && a
                        != b implies after[a] != after[b] by {
                        if a < before.len() {
                            assert(after[a] == before[a]);
                        }
                        if b < before.len() {
                            assert(after[b] == before[b]);
                        }
                    }
                }
                assert(after.to_set() =~= before.to_set().insert(flag@)) by {
                    assert forall|v: WifiFlagView| after.to_set().contains(v) implies before.to_set().insert(
                        flag@,
                    ).contains(v) by {
                        let k = choose|k: int| 0 <= k < after.len() && after[k] == v;
                        if k < before.len() {
                            assert(before[k] == v);
                        }
                    }
                    assert forall|v: WifiFlagView| before.to_set().insert(flag@).contains(
                        v,
                    ) implies after.to_set().contains(v) by {
                        if v == flag@ {
                            assert(after[after.len() - 1] == v);
                        } else {
                            let k = choose|k: int| 0 <= k < before.len() && before[k] == v;
                            assert(after[k] == v);
                        }
                    }
                }
            }
            self.list = list;
            true
        }
    }

    /// The number of flags.
    pub fn len(&self) -> (n: usize)
        ensures
            n == self@.len(),
    {
        proof {
            use_type_invariant(self);
            self.list@.map_values(|flag: WifiFlag| flag@).unique_seq_to_set();
        }
        self.list.len()
    }

    /// The flag at a position below `len`; every flag of the set stands at
    /// one position.
    pub fn get(&self, index: usize) -> (flag: Option<&WifiFlag>)
        ensures
            index < self@.len() <==> flag is Some,
            flag is Some ==> self@.contains(flag.unwrap()@),
    {
        proof {
            use_type_invariant(self);
            self.list@.map_values(|flag: WifiFlag| flag@).unique_seq_to_set();
        }
        if index < self.list.len() {
            assert(self.list@.map_values(|flag: WifiFlag| flag@)[index as int]
                == self.list@[index as int]@);
            Some(&self.list[index])
        } else {
            None
        }
    }
}

} // verus!
