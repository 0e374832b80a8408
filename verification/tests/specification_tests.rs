use demiarch_core::specification::{spec, FalseSpec, Specification, TrueSpec};

#[derive(Debug)]
struct User {
    age: u32,
    is_active: bool,
    role: String,
}

struct AgeSpec {
    min_age: u32,
}

impl Specification<User> for AgeSpec {
    fn holds(&self, user: &User) -> bool {
        user.age >= self.min_age
    }

    fn checkable(&self, _user: &User) -> bool {
        true
    }

    fn is_satisfied_by(&self, user: &User) -> bool {
        user.age >= self.min_age
    }
}

struct ActiveSpec;

impl Specification<User> for ActiveSpec {
    fn holds(&self, user: &User) -> bool {
        user.is_active
    }

    fn checkable(&self, _user: &User) -> bool {
        true
    }

    fn is_satisfied_by(&self, user: &User) -> bool {
        user.is_active
    }
}

struct RoleSpec {
    role: String,
}

impl Specification<User> for RoleSpec {
    fn holds(&self, user: &User) -> bool {
        user.role == self.role
    }

    fn checkable(&self, _user: &User) -> bool {
        true
    }

    fn is_satisfied_by(&self, user: &User) -> bool {
        user.role == self.role
    }
}

fn user(age: u32, is_active: bool, role: &str) -> User {
    User { age, is_active, role: role.to_string() }
}

#[test]
fn test_single_specification() {
    let age_spec = AgeSpec { min_age: 18 };
    let adult = user(25, true, "user");
    let minor = user(15, true, "user");
    assert!(age_spec.is_satisfied_by(&adult));
    assert!(!age_spec.is_satisfied_by(&minor));
}

#[test]
fn test_and_specification() {
    let combined = AgeSpec { min_age: 18 }.and(ActiveSpec);
    assert!(combined.is_satisfied_by(&user(25, true, "user")));
    assert!(!combined.is_satisfied_by(&user(25, false, "user")));
    assert!(!combined.is_satisfied_by(&user(15, true, "user")));
}

#[test]
fn test_or_specification() {
    let combined = RoleSpec { role: "admin".to_string() }.or(AgeSpec { min_age: 21 });
    assert!(combined.is_satisfied_by(&user(18, true, "admin")));
    assert!(combined.is_satisfied_by(&user(25, true, "user")));
    assert!(!combined.is_satisfied_by(&user(18, true, "user")));
}

#[test]
fn test_not_specification() {
    let inactive_spec = ActiveSpec.not();
    assert!(!inactive_spec.is_satisfied_by(&user(25, true, "user")));
    assert!(inactive_spec.is_satisfied_by(&user(25, false, "user")));
}

#[test]
fn test_complex_composition() {
    let age_and_active = AgeSpec { min_age: 18 }.and(ActiveSpec);
    let combined = age_and_active.or(RoleSpec { role: "admin".to_string() });
    assert!(combined.is_satisfied_by(&user(25, true, "user")));
    assert!(combined.is_satisfied_by(&user(15, false, "admin")));
    assert!(!combined.is_satisfied_by(&user(15, false, "user")));
}

#[test]
fn test_predicate_spec() {
    let adult_spec = spec(|u: &User| u.age >= 18);
    assert!(adult_spec.is_satisfied_by(&user(25, true, "user")));
    assert!(!adult_spec.is_satisfied_by(&user(15, true, "user")));
}

#[test]
fn test_true_false_specs() {
    let u = user(25, true, "user");
    assert!(TrueSpec::<User>::new().is_satisfied_by(&u));
    assert!(!FalseSpec::<User>::new().is_satisfied_by(&u));
}

#[test]
fn test_identities_and_de_morgan() {
    let u = user(16, true, "user");
    let with_true = TrueSpec::<User>::new().and(AgeSpec { min_age: 18 });
    assert_eq!(with_true.is_satisfied_by(&u), AgeSpec { min_age: 18 }.is_satisfied_by(&u));
    let with_false = FalseSpec::<User>::new().or(ActiveSpec);
    assert!(with_false.is_satisfied_by(&u));
    let not_and = AgeSpec { min_age: 18 }.and(ActiveSpec).not();
    let or_not = AgeSpec { min_age: 18 }.not().or(ActiveSpec.not());
    assert_eq!(not_and.is_satisfied_by(&u), or_not.is_satisfied_by(&u));
    assert!(ActiveSpec.not().not().is_satisfied_by(&u));
}
