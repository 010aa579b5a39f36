use vstd::prelude::*;
use once_cell::sync::OnceCell;
use crate::error::PluginError;

verus! {

/// The operations any plugin implementation provides. What each operation
/// returns and leaves behind is a function of the handler's abstract state.
pub trait Handler: Sized {
    /// The abstract state of a handler.
    type State;

    /// The abstract state of this handler.
    spec fn state(&self) -> Self::State;

    /// Whether one-time setup has run in state `s`.
    spec fn initialized(s: Self::State) -> bool;

    /// What setup returns from state `s`.
    spec fn init_result(s: Self::State) -> Result<(), PluginError>;

    /// The state setup leaves from state `s`.
    spec fn after_init(s: Self::State) -> Self::State;

    /// What one unit of work returns from state `s`.
    spec fn work_result(s: Self::State) -> Result<(), PluginError>;

    /// The state one unit of work leaves from state `s`.
    spec fn after_work(s: Self::State) -> Self::State;

    /// The state teardown leaves from state `s`.
    spec fn after_drop(s: Self::State) -> Self::State;

    /// One-time setup. Fails with `AlreadyInitialized` when it has already run.
    fn on_init(&mut self) -> (r: Result<(), PluginError>)
        ensures
            r == Self::init_result(old(self).state()),
            final(self).state() == Self::after_init(old(self).state()),
            Self::initialized(old(self).state()) ==> r == Err::<(), PluginError>(
                PluginError::AlreadyInitialized,
            ),
            r is Ok ==> Self::initialized(final(self).state()),
    ;

    /// One unit of work.
    fn on_something(&mut self) -> (r: Result<(), PluginError>)
        ensures
            r == Self::work_result(old(self).state()),
            final(self).state() == Self::after_work(old(self).state()),
            Self::initialized(final(self).state()) == Self::initialized(old(self).state()),
    ;

    /// Releases what the handler privately owns; never fails.
    fn on_drop(&mut self)
        ensures
            final(self).state() == Self::after_drop(old(self).state()),
    ;
}

#[verifier::external_type_specification]
#[verifier::external_body]
#[verifier::reject_recursive_types(T)]
pub struct ExOnceCell<T>(OnceCell<T>);

/// What a write-once cell of integer sequences holds, if anything.
pub uninterp spec fn cell_contents(c: OnceCell<Vec<i32>>) -> Option<Seq<i32>>;

/// Relies on `once_cell::sync::OnceCell::new`: a new cell is empty.
#[verifier::external_body]
fn empty_cell() -> (r: OnceCell<Vec<i32>>)
    ensures
        cell_contents(r) is None,
{
    OnceCell::new()
}

/// Relies on `once_cell::sync::OnceCell::set`: an empty cell takes the value
/// and `Ok` comes back; a full cell keeps its value and hands the new one back.
#[verifier::external_body]
fn fill_cell(c: &mut OnceCell<Vec<i32>>, v: Vec<i32>) -> (r: Result<(), Vec<i32>>)
    ensures
        (match r {
            Ok(_) => cell_contents(*old(c)) is None && cell_contents(*final(c)) == Some(v@),
            Err(w) => cell_contents(*old(c)) is Some && w == v && cell_contents(*final(c))
                == cell_contents(*old(c)),
        }),
{
    c.set(v)
}

/// Relies on `once_cell::sync::OnceCell::get`: the stored value, if any.
#[verifier::external_body]
fn cell_value(c: &OnceCell<Vec<i32>>) -> (r: Option<&Vec<i32>>)
    ensures
        r is None <==> cell_contents(*c) is None,
        r is Some ==> cell_contents(*c) == Some(r->0@),
{
    c.get()
}

/// The value the embedded handler stores during its one-time setup.
pub open spec fn init_payload() -> Seq<i32> {
    seq![1i32, 2i32, 3i32]
}

/// The handler compiled into the host. Its data is written once, by `on_init`.
#[derive(Debug)]
pub struct SomeHandler {
    data: OnceCell<Vec<i32>>,
}

impl SomeHandler {
    /// The data held, or `None` before setup.
    pub closed spec fn data_view(&self) -> Option<Seq<i32>> {
        cell_contents(self.data)
    }

    /// A handler whose setup has not run.
    pub fn uninit() -> (r: Self)
        ensures
            r.data_view() is None,
    {
        SomeHandler { data: empty_cell() }
    }

    /// The data written by setup, if it has run.
    pub fn data(&self) -> (r: Option<&Vec<i32>>)
        ensures
            r is None <==> self.data_view() is None,
            r is Some ==> self.data_view() == Some(r->0@),
    {
        cell_value(&self.data)
    }
}

impl SomeHandler {
    /// The setup behind `on_init`: writes the payload into the empty cell,
    /// or fails with `AlreadyInitialized`, changing nothing, when it is full.
    pub fn init_data(&mut self) -> (r: Result<(), PluginError>)
        ensures
            old(self).data_view() is None ==> r == Ok::<(), PluginError>(()) && final(self).data_view() == Some(
                init_payload(),
            ),
            old(self).data_view() is Some ==> r == Err::<(), PluginError>(
                PluginError::AlreadyInitialized,
            ) && final(self).data_view() == old(self).data_view(),
    {
        let v: Vec<i32> = vec![1i32, 2i32, 3i32];
        match fill_cell(&mut self.data, v) {
            Ok(()) => Ok(()),
            Err(_) => Err(PluginError::AlreadyInitialized),
        }
    }
}

impl Handler for SomeHandler {
    type State = Option<Seq<i32>>;

    open spec fn state(&self) -> Option<Seq<i32>> {
        self.data_view()
    }

    open spec fn initialized(s: Option<Seq<i32>>) -> bool {
        s is Some
    }

    open spec fn init_result(s: Option<Seq<i32>>) -> Result<(), PluginError> {
        if s is None {
            Ok(())
        } else {
            Err(PluginError::AlreadyInitialized)
        }
    }

    open spec fn after_init(s: Option<Seq<i32>>) -> Option<Seq<i32>> {
        if s is None {
            Some(init_payload())
        } else {
            s
        }
    }

    open spec fn work_result(s: Option<Seq<i32>>) -> Result<(), PluginError> {
        Ok(())
    }

    open spec fn after_work(s: Option<Seq<i32>>) -> Option<Seq<i32>> {
        s
    }

    open spec fn after_drop(s: Option<Seq<i32>>) -> Option<Seq<i32>> {
        s
    }

    fn on_init(&mut self) -> (r: Result<(), PluginError>) {
        self.init_data()
    }

    fn on_something(&mut self) -> (r: Result<(), PluginError>) {
        Ok(())
    }

    fn on_drop(&mut self) {
    }
}

} // verus!
