//! Small traits and the ways of calling through them: default methods,
//! operator bounds, static and dynamic dispatch, associated types.

use vstd::prelude::*;
use vstd::multiset::Multiset;
use vstd::std_specs::ops::AddSpec;
use vstd::string::StringExecFns;
use crate::decimal::{decimal, push_decimal};

verus! {

/// Someone who greets and then says a sentence about themselves.
pub trait Hello {
    /// Whether this one greets the way everybody does who has no greeting
    /// of their own.
    spec fn greets_plainly(&self) -> bool;

    /// The sentence, as text.
    spec fn sentence(&self) -> Seq<char>;

    /// The greeting: `"hi"`, for those who have none of their own.
    fn say_hi(&self) -> (text: String)
        ensures
            self.greets_plainly() ==> text@ == "hi"@,
    {
        String::from_str("hi")
    }

    /// The sentence.
    fn say_something(&self) -> (text: String)
        ensures
            text@ == self.sentence(),
    ;
}

/// A student, who greets plainly.
pub struct Student {}

impl Hello for Student {
    open spec fn greets_plainly(&self) -> bool {
        true
    }

    open spec fn sentence(&self) -> Seq<char> {
        "I'm a good student"@
    }

    fn say_something(&self) -> (text: String) {
        String::from_str("I'm a good student")
    }
}

/// A teacher, who has a greeting of their own.
pub struct Teacher {}

impl Hello for Teacher {
    open spec fn greets_plainly(&self) -> bool {
        false
    }

    open spec fn sentence(&self) -> Seq<char> {
        "I'm not a bad teacher"@
    }

    fn say_hi(&self) -> (text: String)
        ensures
            text@ == "Hi, I'm your new teacher"@,
    {
        String::from_str("Hi, I'm your new teacher")
    }

    fn say_something(&self) -> (text: String) {
        String::from_str("I'm not a bad teacher")
    }
}

/// A point of the plane with integer coordinates.
#[derive(PartialOrd, PartialEq, Eq, Structural, Debug)]
pub struct Point {
    pub x: i32,
    pub y: i32,
}

/// The sum of two values of a type that can be added.
pub fn _sum<T: std::ops::Add<Output = T>>(x: T, y: T) -> (total: T)
    requires
        x.add_req(y),
    ensures
        T::obeys_add_spec() ==> total == x.add_spec(y),
{
    x + y
}

/// A value that can describe itself.
pub trait Foo {
    /// The description, as text.
    spec fn description(&self) -> Seq<char>;

    /// The description: the name of the type, a colon, and the value.
    fn method(&self) -> (text: String)
        ensures
            text@ == self.description(),
    ;
}

impl Foo for u8 {
    open spec fn description(&self) -> Seq<char> {
        "u8: "@ + decimal(*self as nat)
    }

    fn method(&self) -> (text: String) {
        let mut text = String::from_str("u8: ");
        push_decimal(&mut text, *self as u32);
        text
    }
}

impl Foo for String {
    open spec fn description(&self) -> Seq<char> {
        "string: "@ + self@
    }

    fn method(&self) -> (text: String) {
        String::from_str("string: ").concat(self.as_str())
    }
}

/// Has `x` describe itself; the implementation is chosen when the call is
/// compiled.
pub fn static_dispatch<T: Foo>(x: T) {
    x.method();
}

/// Has a boxed `x` describe itself; the implementation is found through the
/// box when the call runs.
pub fn static_dispatch_2(x: Box<dyn Foo>) {
    x.method();
}

/// Has `x` describe itself; the implementation is found through the
/// reference when the call runs.
pub fn dynamic_dispatch(x: &dyn Foo) {
    x.method();
}

/// A value that can be drawn.
pub trait Draw {
    /// The drawing, as text.
    spec fn drawing(&self) -> Seq<char>;

    /// The drawing: the name of the type, a colon, and the value.
    fn draw(&self) -> (text: String)
        ensures
            text@ == self.drawing(),
    ;
}

impl Draw for u8 {
    open spec fn drawing(&self) -> Seq<char> {
        "u8: "@ + decimal(*self as nat)
    }

    fn draw(&self) -> (text: String) {
        let mut text = String::from_str("u8: ");
        push_decimal(&mut text, *self as u32);
        text
    }
}

/// Draws a boxed value.
pub fn draw_with_box(x: Box<dyn Draw>) {
    x.draw();
}

/// Draws a value behind a reference.
pub fn draw_with_ref<T: Draw>(x: &T) {
    x.draw();
}

/// A collection that takes items in and gives them back one at a time.
pub trait Container {
    type Item;

    /// What the container holds, each item as often as it is inside.
    spec fn contents(&self) -> Multiset<Self::Item>;

    /// Puts `item` in.
    fn insert(&mut self, item: Self::Item)
        ensures
            final(self).contents() == old(self).contents().insert(item),
    ;

    /// Takes one item out, if there is any; which one is up to the
    /// container.
    fn remove(&mut self) -> (item: Option<Self::Item>)
        ensures
            match item {
                Some(taken) => old(self).contents().contains(taken) && final(self).contents() == old(
                    self,
                ).contents().remove(taken),
                None => old(self).contents().len() == 0 && final(self).contents() == old(
                    self,
                ).contents(),
            },
    ;

    /// Whether nothing is inside.
    fn is_empty(&self) -> (empty: bool)
        ensures
            empty == (self.contents().len() == 0),
    ;
}

/// A stack of bytes: the item inserted last is removed first.
pub struct Stack {
    pub items: Vec<u8>,
}

impl View for Stack {
    type V = Seq<u8>;

    open spec fn view(&self) -> Seq<u8> {
        self.items@
    }
}

impl Container for Stack {
    type Item = u8;

    open spec fn contents(&self) -> Multiset<u8> {
        self@.to_multiset()
    }

    fn insert(&mut self, item: u8)
        ensures
            final(self)@ == old(self)@.push(item),
    {
        proof {
            self@.to_multiset_ensures();
        }
        self.items.push(item)
    }

    fn remove(&mut self) -> (item: Option<u8>)
        ensures
            old(self)@.len() == 0 ==> item is None && final(self)@ == old(self)@,
            old(self)@.len() > 0 ==> item == Some(old(self)@.last()) && final(self)@ == old(
                self,
            )@.drop_last(),
    {
        proof {
            let before = self@;
            before.to_multiset_ensures();
            if before.len() > 0 {
                assert(before.remove(before.len() - 1) =~= before.drop_last());
                assert(before.contains(before.last()));
            }
        }
        self.items.pop()
    }

    fn is_empty(&self) -> (empty: bool)
        ensures
            empty == (self@.len() == 0),
    {
        proof {
            self@.to_multiset_ensures();
        }
        self.items.len() == 0
    }
}

} // verus!
