use raw_ipa::ff::prime_field::Fp31;
use raw_ipa::ff::Field;
use raw_ipa::helpers::Role;
use raw_ipa::protocol::context::semi_honest::SemiHonestContext;
use raw_ipa::protocol::malicious::SecurityValidatorAccumulator;
use raw_ipa::secret_sharing::Replicated;

#[test]
fn malicious_context_keeps_role_step_and_accumulator() {
    let ctx = SemiHonestContext::<Fp31>::new(Role::H2);
    assert_eq!(ctx.step().as_str(), "protocol");
    let mut acc = SecurityValidatorAccumulator::<Fp31>::new();
    acc.u = Fp31::from(3_u8);
    let r_share = Replicated::new(Fp31::from(1_u8), Fp31::from(2_u8));
    let malicious = ctx.upgrade_to_malicious(acc, r_share);
    assert_eq!(malicious.role(), Role::H2);
    assert_eq!(malicious.accumulator().u, Fp31::from(3_u8));
    assert_eq!(malicious.accumulator().w, Fp31::zero());

    let narrowed = malicious.narrow("validate");
    assert_eq!(narrowed.step().as_str(), "protocol/validate");
    assert_eq!(narrowed.role(), Role::H2);
    assert_eq!(narrowed.accumulator().u, Fp31::from(3_u8));

    let semi_honest = narrowed.to_semi_honest();
    assert_eq!(semi_honest.role(), Role::H2);
    assert_eq!(semi_honest.step().as_str(), "protocol/validate");
}

#[test]
fn upgrade_then_reinterpret_round_trip() {
    let ctx = SemiHonestContext::<Fp31>::new(Role::H3);
    let back = ctx
        .upgrade_to_malicious(
            SecurityValidatorAccumulator::new(),
            Replicated::new(Fp31::zero(), Fp31::one()),
        )
        .to_semi_honest();
    assert_eq!(back.role(), Role::H3);
    assert_eq!(back.step().as_str(), "protocol");
}

#[test]
fn every_narrowing_keeps_the_accumulator() {
    let mut acc = SecurityValidatorAccumulator::<Fp31>::new();
    acc.w = Fp31::from(9_u8);
    let r_share = Replicated::new(Fp31::from(4_u8), Fp31::from(5_u8));
    let ctx = SemiHonestContext::<Fp31>::new(Role::H1).upgrade_to_malicious(acc, r_share);
    let deep = ctx.narrow("a").narrow("b").narrow("c");
    assert_eq!(deep.step().as_str(), "protocol/a/b/c");
    assert_eq!(deep.role(), Role::H1);
    assert_eq!(deep.accumulator().w, Fp31::from(9_u8));
    assert_eq!(deep.accumulator().u, Fp31::zero());
}
