use tasklist::ticker::Tick;

#[test]
fn the_ticker_alternates() {
    assert_eq!(Tick::Tik.flip(), Tick::Tok);
    assert_eq!(Tick::Tok.flip(), Tick::Tik);
}

#[test]
fn two_steps_lead_back() {
    for t in [Tick::Tik, Tick::Tok] {
        assert_eq!(t.flip().flip(), t);
    }
}

#[test]
fn labels() {
    assert_eq!(Tick::Tik.label(), "tik");
    assert_eq!(Tick::Tok.label(), "tok");
}
