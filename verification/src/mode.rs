//! Machine models: the device family and the hardware variation emulated.

use vstd::prelude::*;

verus! {

#[allow(non_camel_case_types)]
#[derive(Copy, Clone, PartialEq, Eq, Structural, Debug)]
pub enum Device {
    GB,
    CGB,
    SGB,
}

#[allow(non_camel_case_types)]
#[derive(Copy, Clone, PartialEq, Eq, Structural, Debug)]
pub enum Mode {
    GB_DMG0,
    GB_DMG,
    GB_MGB,
    GB_CGB,
    GB_AGB,
    GB_SGB1,
    GB_SGB2,
    CGB_CGB,
    CGB_AGB,
    SGB_SGB1,
    SGB_SGB2,
}

/// The fields of `s` separated by `:`, as `str::split(':')` yields them.
pub open spec fn fields(s: Seq<char>) -> Seq<Seq<char>>
    decreases s.len(),
{
    if s.len() == 0 {
        seq![Seq::empty()]
    } else {
        let rest = fields(s.drop_last());
        if s.last() == ':' {
            rest.push(Seq::empty())
        } else {
            rest.update(rest.len() - 1, rest.last().push(s.last()))
        }
    }
}

/// The device named by a mode string's first field.
pub open spec fn device_named(f: Seq<char>) -> Option<Device> {
    if f == seq!['g', 'b'] {
        Some(Device::GB)
    } else if f == seq!['c', 'g', 'b'] {
        Some(Device::CGB)
    } else if f == seq!['s', 'g', 'b'] {
        Some(Device::SGB)
    } else {
        None
    }
}

/// The mode a device defaults to when no variation is given.
pub open spec fn default_mode(d: Device) -> Mode {
    match d {
        Device::GB => Mode::GB_MGB,
        Device::CGB => Mode::CGB_CGB,
        Device::SGB => Mode::SGB_SGB2,
    }
}

/// The mode named by a device and a variation, if that variation exists for the device.
pub open spec fn variation_named(d: Device, v: Seq<char>) -> Option<Mode> {
    match d {
        Device::GB => if v == seq!['d', 'm', 'g', '0'] {
            Some(Mode::GB_DMG0)
        } else if v == seq!['d', 'm', 'g'] {
            Some(Mode::GB_DMG)
        } else if v == seq!['m', 'g', 'b'] {
            Some(Mode::GB_MGB)
        } else if v == seq!['c', 'g', 'b'] {
            Some(Mode::GB_CGB)
        } else if v == seq!['a', 'g', 'b'] {
            Some(Mode::GB_AGB)
        } else if v == seq!['s', 'g', 'b', '1'] {
            Some(Mode::GB_SGB1)
        } else if v == seq!['s', 'g', 'b'] || v == seq!['s', 'g', 'b', '2'] {
            Some(Mode::GB_SGB2)
        } else {
            None
        },
        Device::CGB => if v == seq!['c', 'g', 'b'] {
            Some(Mode::CGB_CGB)
        } else if v == seq!['a', 'g', 'b'] {
            Some(Mode::CGB_AGB)
        } else {
            None
        },
        Device::SGB => if v == seq!['1'] {
            Some(Mode::SGB_SGB1)
        } else if v == seq!['2'] {
            Some(Mode::SGB_SGB2)
        } else {
            None
        },
    }
}

/// The mode a string `device[:variation]` names; fields after the second are ignored.
pub open spec fn mode_named(s: Seq<char>) -> Option<Mode> {
    let f = fields(s);
    match device_named(f[0]) {
        None => None,
        Some(d) => if f.len() == 1 {
            Some(default_mode(d))
        } else {
            variation_named(d, f[1])
        },
    }
}

/// The device family a mode belongs to.
pub open spec fn device_of(m: Mode) -> Device {
    match m {
        Mode::GB_DMG0 | Mode::GB_DMG | Mode::GB_MGB | Mode::GB_CGB | Mode::GB_AGB | Mode::GB_SGB1
        | Mode::GB_SGB2 => Device::GB,
        Mode::CGB_CGB | Mode::CGB_AGB => Device::CGB,
        Mode::SGB_SGB1 | Mode::SGB_SGB2 => Device::SGB,
    }
}

/// The vector holding exactly the characters of `w` in order.
fn word(w: &str) -> (v: Vec<char>)
    ensures
        v@ == w@,
{
    let n = w.unicode_len();
    let mut v: Vec<char> = Vec::new();
    let mut i: usize = 0;
    while i < n
        invariant
            i <= n == w@.len(),
            v@ == w@.take(i as int),
        decreases n - i,
    {
        v.push(w.get_char(i));
        i = i + 1;
        assert(v@ =~= w@.take(i as int));
    }
    assert(w@.take(n as int) =~= w@);
    v
}

/// Whether `v` holds exactly the characters of `w`.
fn is_word(v: &Vec<char>, w: &Vec<char>) -> (r: bool)
    ensures
        r == (v@ == w@),
{
    if v.len() != w.len() {
        return false;
    }
    let mut i: usize = 0;
    while i < v.len()
        invariant
            i <= v.len() == w.len(),
            v@.subrange(0, i as int) == w@.subrange(0, i as int),
        decreases v.len() - i,
    {
        if v[i] != w[i] {
            assert(v@[i as int] != w@[i as int]);
            return false;
        }
        i = i + 1;
        assert(v@.subrange(0, i as int) =~= w@.subrange(0, i as int)) by {
            assert(v@.subrange(0, i as int) =~= v@.subrange(0, (i - 1) as int).push(v@[i - 1]));
            assert(w@.subrange(0, i as int) =~= w@.subrange(0, (i - 1) as int).push(w@[i - 1]));
        }
    }
    assert(v@ =~= v@.subrange(0, v.len() as int));
    assert(w@ =~= w@.subrange(0, w.len() as int));
    true
}

impl Mode {
    /// Parses `device[:variation]`, e.g. `gb`, `gb:dmg`, `cgb:agb`, `sgb:1`.
    pub fn from_str(s: &str) -> (r: Option<Mode>)
        ensures
            r == mode_named(s@),
    {
        proof {
            reveal_strlit("gb");
            assert("gb"@ =~= seq!['g', 'b']);
            reveal_strlit("cgb");
            assert("cgb"@ =~= seq!['c', 'g', 'b']);
            reveal_strlit("sgb");
            assert("sgb"@ =~= seq!['s', 'g', 'b']);
            reveal_strlit("dmg0");
            assert("dmg0"@ =~= seq!['d', 'm', 'g', '0']);
            reveal_strlit("dmg");
            assert("dmg"@ =~= seq!['d', 'm', 'g']);
            reveal_strlit("mgb");
            assert("mgb"@ =~= seq!['m', 'g', 'b']);
            reveal_strlit("agb");
            assert("agb"@ =~= seq!['a', 'g', 'b']);
            reveal_strlit("sgb1");
            assert("sgb1"@ =~= seq!['s', 'g', 'b', '1']);
            reveal_strlit("sgb2");
            assert("sgb2"@ =~= seq!['s', 'g', 'b', '2']);
            reveal_strlit("1");
            assert("1"@ =~= seq!['1']);
            reveal_strlit("2");
            assert("2"@ =~= seq!['2']);
        }
        let n = s.unicode_len();
        let mut first: Vec<char> = Vec::new();
        let mut second: Vec<char> = Vec::new();
        let mut colons: usize = 0;
        let mut i: usize = 0;
        while i < n
            invariant
                i <= n == s@.len(),
                colons <= i,
                colons + 1 == fields(s@.take(i as int)).len(),
                first@ == fields(s@.take(i as int))[0],
                colons >= 1 ==> second@ == fields(s@.take(i as int))[1],
                colons == 0 ==> second@ == Seq::<char>::empty(),
            decreases n - i,
        {
            let c = s.get_char(i);
            proof {
                assert(s@.take(i + 1).drop_last() =~= s@.take(i as int));
                assert(s@.take(i + 1).last() == c);
            }
            if c == ':' {
                colons = colons + 1;
            } else if colons == 0 {
                first.push(c);
            } else if colons == 1 {
                second.push(c);
            }
            i = i + 1;
        }
        proof {
            assert(s@.take(n as int) =~= s@);
        }
        let device = if is_word(&first, &word("gb")) {
            Device::GB
        } else if is_word(&first, &word("cgb")) {
            Device::CGB
        } else if is_word(&first, &word("sgb")) {
            Device::SGB
        } else {
            return None;
        };
        if colons == 0 {
            return Some(
                match device {
                    Device::GB => Mode::GB_MGB,
                    Device::CGB => Mode::CGB_CGB,
                    Device::SGB => Mode::SGB_SGB2,
                },
            );
        }
        match device {
            Device::GB => {
                if is_word(&second, &word("dmg0")) {
                    Some(Mode::GB_DMG0)
                } else if is_word(&second, &word("dmg")) {
                    Some(Mode::GB_DMG)
                } else if is_word(&second, &word("mgb")) {
                    Some(Mode::GB_MGB)
                } else if is_word(&second, &word("cgb")) {
                    Some(Mode::GB_CGB)
                } else if is_word(&second, &word("agb")) {
                    Some(Mode::GB_AGB)
                } else if is_word(&second, &word("sgb1")) {
                    Some(Mode::GB_SGB1)
                } else if is_word(&second, &word("sgb")) || is_word(&second, &word("sgb2")) {
                    Some(Mode::GB_SGB2)
                } else {
                    None
                }
            },
            Device::CGB => {
                if is_word(&second, &word("cgb")) {
                    Some(Mode::CGB_CGB)
                } else if is_word(&second, &word("agb")) {
                    Some(Mode::CGB_AGB)
                } else {
                    None
                }
            },
            Device::SGB => {
                if is_word(&second, &word("1")) {
                    Some(Mode::SGB_SGB1)
                } else if is_word(&second, &word("2")) {
                    Some(Mode::SGB_SGB2)
                } else {
                    None
                }
            },
        }
    }

    /// Query device from mode
    pub fn device(&self) -> (r: Device)
        ensures
            r == device_of(*self),
    {
        match *self {
            Mode::GB_DMG0 | Mode::GB_DMG | Mode::GB_MGB | Mode::GB_CGB | Mode::GB_AGB
            | Mode::GB_SGB1 | Mode::GB_SGB2 => Device::GB,
            Mode::CGB_CGB | Mode::CGB_AGB => Device::CGB,
            Mode::SGB_SGB1 | Mode::SGB_SGB2 => Device::SGB,
        }
    }
}

} // verus!
