use vstd::prelude::*;

verus! {

/// One shift step of the sensor's CRC-8 (polynomial 0x31, most significant
/// bit first, no reflection): shift left by one bit and fold the polynomial
/// in when the bit that falls out is set.
pub open spec fn crc8_step(c: u8) -> u8 {
    let doubled = (((c as u32) * 2) % 256) as u8;
    if c >= 0x80 {
        doubled ^ 0x31
    } else {
        doubled
    }
}

/// `n` shift steps in a row.
pub open spec fn crc8_steps(c: u8, n: nat) -> u8
    decreases n,
{
    if n == 0 {
        c
    } else {
        crc8_steps(crc8_step(c), (n - 1) as nat)
    }
}

/// Folding one data byte into the running value: xor it in, then eight steps.
pub open spec fn crc8_feed(c: u8, b: u8) -> u8 {
    crc8_steps(c ^ b, 8)
}

/// Folding a whole byte sequence in, left to right.
pub open spec fn crc8_over(c: u8, data: Seq<u8>) -> u8
    decreases data.len(),
{
    if data.len() == 0 {
        c
    } else {
        crc8_over(crc8_feed(c, data[0]), data.skip(1))
    }
}

/// The checksum the sensor requires on every argument-carrying command:
/// CRC-8 with polynomial 0x31, initial value 0xFF, no input or output
/// reflection, and no final xor, over the argument bytes.
pub open spec fn crc8(data: Seq<u8>) -> u8 {
    crc8_over(0xff, data)
}

fn crc8_step_exec(c: u8) -> (r: u8)
    ensures
        r == crc8_step(c),
{
    let doubled: u8 = (((c as u32) * 2) % 256) as u8;
    if c >= 0x80 {
        doubled ^ 0x31
    } else {
        doubled
    }
}

fn crc8_feed_exec(c: u8, b: u8) -> (r: u8)
    ensures
        r == crc8_feed(c, b),
{
    let start: u8 = c ^ b;
    let mut acc: u8 = start;
    let mut k: usize = 0;
    while k < 8
        invariant
            k <= 8,
            crc8_steps(start, 8) == crc8_steps(acc, (8 - k) as nat),
        decreases 8 - k,
    {
        proof {
            assert(crc8_steps(acc, (8 - k) as nat) == crc8_steps(
                crc8_step(acc),
                (8 - (k + 1)) as nat,
            ));
        }
        acc = crc8_step_exec(acc);
        k = k + 1;
    }
    acc
}

/// The sensor's CRC-8 over `data`.
pub fn crc8_compute(data: &[u8]) -> (r: u8)
    ensures
        r == crc8(data@),
{
    let mut c: u8 = 0xff;
    let mut i: usize = 0;
    proof {
        assert(data@.skip(0) =~= data@);
    }
    while i < data.len()
        invariant
            i <= data@.len(),
            crc8(data@) == crc8_over(c, data@.skip(i as int)),
        decreases data@.len() - i,
    {
        proof {
            assert(data@.skip(i as int)[0] == data@[i as int]);
            assert(data@.skip(i as int).skip(1) =~= data@.skip(i as int + 1));
        }
        c = crc8_feed_exec(c, data[i]);
        i = i + 1;
    }
    proof {
        assert(data@.skip(i as int) =~= Seq::<u8>::empty());
    }
    c
}

} // verus!
