use core::cmp::Ordering;
use numbat_core::big_int::{andes_cmp_i64, AndesBigInt};
use numbat_core::big_int_api::Sign;
use numbat_core::host::BigIntHost;

/// A host that keeps machine integers; its sign and comparison answer with
/// numbers of any size, as a host may.
struct WordHost {
    slots: Vec<i128>,
    calls: Vec<&'static str>,
}

fn shortest(v: i128) -> Vec<u8> {
    if v == 0 {
        return Vec::new();
    }
    let all = v.to_be_bytes();
    let mut start = 0;
    while start + 1 < all.len() {
        let sign_byte = if v < 0 { 0xff } else { 0x00 };
        let next_top = all[start + 1] >> 7;
        if all[start] == sign_byte && next_top == (sign_byte >> 7) {
            start += 1;
        } else {
            break;
        }
    }
    all[start..].to_vec()
}

fn denoted(bytes: &[u8]) -> i128 {
    let mut v: i128 = if !bytes.is_empty() && bytes[0] >= 0x80 { -1 } else { 0 };
    for b in bytes {
        v = (v << 8) | (*b as i128);
    }
    v
}

impl BigIntHost for WordHost {
    fn big_int_new(&mut self, value: i64) -> i32 {
        self.calls.push("new");
        self.slots.push(value as i128);
        (self.slots.len() - 1) as i32
    }

    fn big_int_signed_byte_length(&self, x: i32) -> usize {
        shortest(self.slots[x as usize]).len()
    }

    fn big_int_get_signed_bytes(&self, reference: i32, dest: &mut Vec<u8>) {
        let bytes = shortest(self.slots[reference as usize]);
        assert_eq!(dest.len(), bytes.len());
        dest.copy_from_slice(&bytes);
    }

    fn big_int_set_signed_bytes(&mut self, destination: i32, bytes: &[u8]) {
        self.calls.push("set");
        self.slots[destination as usize] = denoted(bytes);
    }

    fn big_int_add(&mut self, dest: i32, x: i32, y: i32) {
        self.calls.push("add");
        self.slots[dest as usize] = self.slots[x as usize] + self.slots[y as usize];
    }

    fn big_int_sub(&mut self, dest: i32, x: i32, y: i32) {
        self.calls.push("sub");
        self.slots[dest as usize] = self.slots[x as usize] - self.slots[y as usize];
    }

    fn big_int_mul(&mut self, dest: i32, x: i32, y: i32) {
        self.calls.push("mul");
        self.slots[dest as usize] = self.slots[x as usize] * self.slots[y as usize];
    }

    fn big_int_t_div(&mut self, dest: i32, x: i32, y: i32) {
        self.calls.push("tdiv");
        self.slots[dest as usize] = self.slots[x as usize] / self.slots[y as usize];
    }

    fn big_int_t_mod(&mut self, dest: i32, x: i32, y: i32) {
        self.calls.push("tmod");
        self.slots[dest as usize] = self.slots[x as usize] % self.slots[y as usize];
    }

    fn big_int_abs(&mut self, dest: i32, x: i32) {
        self.calls.push("abs");
        self.slots[dest as usize] = self.slots[x as usize].abs();
    }

    fn big_int_neg(&mut self, dest: i32, x: i32) {
        self.calls.push("neg");
        self.slots[dest as usize] = -self.slots[x as usize];
    }

    fn big_int_sign(&self, x: i32) -> i32 {
        (self.slots[x as usize].signum() * 7) as i32
    }

    fn big_int_compare(&self, x: i32, y: i32) -> i32 {
        match self.slots[x as usize].cmp(&self.slots[y as usize]) {
            Ordering::Less => -3,
            Ordering::Equal => 0,
            Ordering::Greater => 5,
        }
    }
}

fn host() -> WordHost {
    WordHost { slots: Vec::new(), calls: Vec::new() }
}

#[test]
fn operations_ask_the_host_for_what_they_need() {
    let mut h = host();
    let a = AndesBigInt::from_i64(&mut h, -7);
    let b = AndesBigInt::from_i64(&mut h, 2);
    h.calls.clear();
    let c = a.clone(&mut h);
    assert_eq!(h.calls, vec!["new", "add"]);
    assert_eq!(h.slots[c.handle as usize], -7);
    h.calls.clear();
    let q = a.div(&mut h, &b);
    assert_eq!(h.calls, vec!["new", "tdiv"]);
    assert_eq!(h.slots[q.handle as usize], -3);
    h.calls.clear();
    let r = a.rem(&mut h, &b);
    assert_eq!(h.calls, vec!["new", "tmod"]);
    assert_eq!(h.slots[r.handle as usize], -1);
    h.calls.clear();
    let mut m = AndesBigInt { handle: c.handle };
    m.mul_assign(&mut h, &b);
    assert_eq!(h.calls, vec!["mul"]);
    assert_eq!(h.slots[c.handle as usize], -14);
    h.calls.clear();
    let u = a.abs_uint(&mut h);
    assert_eq!(h.calls, vec!["new", "abs"]);
    assert_eq!(h.slots[u.handle as usize], 7);
    h.calls.clear();
    let n = AndesBigInt { handle: b.handle }.neg(&mut h);
    assert_eq!(h.calls, vec!["new", "neg"]);
    assert_eq!(h.slots[n.handle as usize], -2);
    h.calls.clear();
    let f = AndesBigInt::from_signed_bytes_be(&mut h, &[0xfe, 0xd4]);
    assert_eq!(h.calls, vec!["new", "set"]);
    assert_eq!(h.slots[f.handle as usize], -300);
    assert_eq!(f.to_signed_bytes_be(&h), vec![0xfe, 0xd4]);
}

#[test]
fn answers_of_any_size_are_read_by_their_sign() {
    let mut h = host();
    let n = AndesBigInt::from_i64(&mut h, -9);
    let z = AndesBigInt::from_i64(&mut h, 0);
    let p = AndesBigInt::from_i64(&mut h, 9);
    assert_eq!(n.sign(&h), Sign::NoSign);
    assert_eq!(z.sign(&h), Sign::NoSign);
    assert_eq!(p.sign(&h), Sign::Plus);
    assert_eq!(n.cmp(&h, &p), Ordering::Less);
    assert_eq!(p.cmp(&h, &n), Ordering::Greater);
    assert_eq!(p.cmp(&h, &p), Ordering::Equal);
    assert!(p.eq(&h, &p));
    assert!(!p.eq(&h, &n));
    h.calls.clear();
    assert!(andes_cmp_i64(&n, &mut h, 0) < 0);
    assert_eq!(andes_cmp_i64(&z, &mut h, 0), 0);
    assert!(andes_cmp_i64(&p, &mut h, 0) > 0);
    assert!(h.calls.is_empty());
    assert!(andes_cmp_i64(&p, &mut h, 10) < 0);
    assert_eq!(h.calls, vec!["new"]);
    assert_eq!(p.partial_cmp_i64(&mut h, 9), Some(Ordering::Equal));
    assert!(n.eq_i64(&mut h, -9));
    assert!(!n.eq_i64(&mut h, 9));
}
