//! What the emitted code does at run time: the impls here are hand-expanded
//! copies of exactly the text the generators produce for these records (the
//! `generators` tests pin that text), so these scenarios exercise the
//! behavior downstream code may rely on.

struct Number {
    num: u64,
}

// As emitted by the getter generator for `Number`.
impl Number {
    pub fn num(&self) -> &u64 {
        &self.num
    }
}

// As emitted by the three dissolve flavors for `Number` (single-field
// records collapse to the bare type).
impl Number {
    pub fn dissolve(self) -> u64 {
        self.num
    }
}

impl Number {
    pub fn dissolve_ref(&self) -> &u64 {
        &self.num
    }
}

impl Number {
    pub fn dissolve_mut(&mut self) -> &mut u64 {
        &mut self.num
    }
}

struct ManyStuff {
    name: String,
    count: usize,
}

// As emitted by the dissolve flavors for `ManyStuff`.
impl ManyStuff {
    pub fn dissolve(self) -> (String, usize) {
        (self.name, self.count)
    }
}

impl ManyStuff {
    pub fn dissolve_ref(&self) -> (&String, &usize) {
        (&self.name, &self.count)
    }
}

impl ManyStuff {
    pub fn dissolve_mut(&mut self) -> (&mut String, &mut usize) {
        (&mut self.name, &mut self.count)
    }
}

#[test]
fn accessor_returns_reference_to_field() {
    let number = Number { num: 655 };
    assert!(number.num() == &655);
}

#[test]
fn dissolve_round_trip() {
    let v = ManyStuff {
        name: "Hogie".to_string(),
        count: 100,
    };
    assert_eq!(v.dissolve_ref(), (&"Hogie".to_string(), &100));
    let t = v.dissolve();
    assert_eq!(t, ("Hogie".to_string(), 100));
    let rebuilt = ManyStuff {
        name: t.0.clone(),
        count: t.1,
    };
    assert_eq!(rebuilt.dissolve(), t);
}

#[test]
fn dissolve_mut_mutation_is_visible() {
    let mut r = ManyStuff {
        name: "Hogie".to_string(),
        count: 100,
    };
    {
        let (_, c) = r.dissolve_mut();
        *c += 1;
    }
    assert_eq!(r.count, 101);

    let mut n = Number { num: 64 };
    *n.dissolve_mut() += 1;
    assert!(*n.dissolve_ref() == 65);
    assert_eq!(n.dissolve(), 65);
}
