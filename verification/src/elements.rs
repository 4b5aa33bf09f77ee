//! The declarations that may stand directly in a file, in a one-of, in a
//! service and in a method. Each family is a sum of the kinds of
//! declaration that are legal there, so that a body can hold them in source
//! order and nothing else.

use vstd::prelude::*;
use crate::enums::EnumNode;
use crate::message::{ExtendNode, MessageNode};
use crate::node::{EmptyDeclNode, Node, NodeTrait, NodeView, TerminalNode};
use crate::options::OptionNode;

verus! {

/// The declarations that may stand directly in a file.
#[derive(Debug)]
pub enum FileElement {
    Option(OptionNode),
    Enum(EnumNode),
    Message(MessageNode),
    Extend(ExtendNode),
    Empty(EmptyDeclNode),
}

impl NodeTrait for FileElement {
    open spec fn node_view(&self) -> NodeView {
        match self {
            FileElement::Option(n) => n.node_view(),
            FileElement::Enum(n) => n.node_view(),
            FileElement::Message(n) => n.node_view(),
            FileElement::Extend(n) => n.node_view(),
            FileElement::Empty(n) => n.node_view(),
        }
    }

    open spec fn has_span(&self) -> bool {
        true
    }

    fn first_token(&self) -> (res: &TerminalNode) {
        match self {
            FileElement::Option(n) => n.first_token(),
            FileElement::Enum(n) => n.first_token(),
            FileElement::Message(n) => n.first_token(),
            FileElement::Extend(n) => n.first_token(),
            FileElement::Empty(n) => n.first_token(),
        }
    }

    fn last_token(&self) -> (res: &TerminalNode) {
        match self {
            FileElement::Option(n) => n.last_token(),
            FileElement::Enum(n) => n.last_token(),
            FileElement::Message(n) => n.last_token(),
            FileElement::Extend(n) => n.last_token(),
            FileElement::Empty(n) => n.last_token(),
        }
    }

    fn as_node_trait(&self) -> (res: Node) {
        match self {
            FileElement::Option(n) => n.as_node_trait(),
            FileElement::Enum(n) => n.as_node_trait(),
            FileElement::Message(n) => n.as_node_trait(),
            FileElement::Extend(n) => n.as_node_trait(),
            FileElement::Empty(n) => n.as_node_trait(),
        }
    }
}

impl OptionNode {
    /// The option as an element of a file.
    pub fn file_element(self) -> (res: FileElement)
        ensures
            res == FileElement::Option(self),
    {
        FileElement::Option(self)
    }
}

impl EnumNode {
    /// The enum as an element of a file.
    pub fn file_element(self) -> (res: FileElement)
        ensures
            res == FileElement::Enum(self),
    {
        FileElement::Enum(self)
    }
}

impl MessageNode {
    /// The message as an element of a file.
    pub fn file_element(self) -> (res: FileElement)
        ensures
            res == FileElement::Message(self),
    {
        FileElement::Message(self)
    }
}

impl ExtendNode {
    /// The extend block as an element of a file.
    pub fn file_element(self) -> (res: FileElement)
        ensures
            res == FileElement::Extend(self),
    {
        FileElement::Extend(self)
    }
}

impl EmptyDeclNode {
    /// The empty declaration as an element of a file.
    pub fn file_element(self) -> (res: FileElement)
        ensures
            res == FileElement::Empty(self),
    {
        FileElement::Empty(self)
    }
}

/// The declarations that may stand in a one-of.
#[derive(Debug)]
pub enum OneOfElement {
    Option(OptionNode),
    Empty(EmptyDeclNode),
}

impl NodeTrait for OneOfElement {
    open spec fn node_view(&self) -> NodeView {
        match self {
            OneOfElement::Option(n) => n.node_view(),
            OneOfElement::Empty(n) => n.node_view(),
        }
    }

    open spec fn has_span(&self) -> bool {
        true
    }

    fn first_token(&self) -> (res: &TerminalNode) {
        match self {
            OneOfElement::Option(n) => n.first_token(),
            OneOfElement::Empty(n) => n.first_token(),
        }
    }

    fn last_token(&self) -> (res: &TerminalNode) {
        match self {
            OneOfElement::Option(n) => n.last_token(),
            OneOfElement::Empty(n) => n.last_token(),
        }
    }

    fn as_node_trait(&self) -> (res: Node) {
        match self {
            OneOfElement::Option(n) => n.as_node_trait(),
            OneOfElement::Empty(n) => n.as_node_trait(),
        }
    }
}

impl OptionNode {
    /// The option as an element of a one-of.
    pub fn one_of_element(self) -> (res: OneOfElement)
        ensures
            res == OneOfElement::Option(self),
    {
        OneOfElement::Option(self)
    }
}

impl EmptyDeclNode {
    /// The empty declaration as an element of a one-of.
    pub fn one_of_element(self) -> (res: OneOfElement)
        ensures
            res == OneOfElement::Empty(self),
    {
        OneOfElement::Empty(self)
    }
}

/// The declarations that may stand in the body of a service.
#[derive(Debug)]
pub enum ServiceElement {
    Option(OptionNode),
    Empty(EmptyDeclNode),
}

impl NodeTrait for ServiceElement {
    open spec fn node_view(&self) -> NodeView {
        match self {
            ServiceElement::Option(n) => n.node_view(),
            ServiceElement::Empty(n) => n.node_view(),
        }
    }

    open spec fn has_span(&self) -> bool {
        true
    }

    fn first_token(&self) -> (res: &TerminalNode) {
        match self {
            ServiceElement::Option(n) => n.first_token(),
            ServiceElement::Empty(n) => n.first_token(),
        }
    }

    fn last_token(&self) -> (res: &TerminalNode) {
        match self {
            ServiceElement::Option(n) => n.last_token(),
            ServiceElement::Empty(n) => n.last_token(),
        }
    }

    fn as_node_trait(&self) -> (res: Node) {
        match self {
            ServiceElement::Option(n) => n.as_node_trait(),
            ServiceElement::Empty(n) => n.as_node_trait(),
        }
    }
}

impl OptionNode {
    /// The option as an element of a service body.
    pub fn service_element(self) -> (res: ServiceElement)
        ensures
            res == ServiceElement::Option(self),
    {
        ServiceElement::Option(self)
    }
}

impl EmptyDeclNode {
    /// The empty declaration as an element of a service body.
    pub fn service_element(self) -> (res: ServiceElement)
        ensures
            res == ServiceElement::Empty(self),
    {
        ServiceElement::Empty(self)
    }
}

/// The declarations that may stand in the body of a method.
#[derive(Debug)]
pub enum MethodElement {
    Option(OptionNode),
    Empty(EmptyDeclNode),
}

impl NodeTrait for MethodElement {
    open spec fn node_view(&self) -> NodeView {
        match self {
            MethodElement::Option(n) => n.node_view(),
            MethodElement::Empty(n) => n.node_view(),
        }
    }

    open spec fn has_span(&self) -> bool {
        true
    }

    fn first_token(&self) -> (res: &TerminalNode) {
        match self {
            MethodElement::Option(n) => n.first_token(),
            MethodElement::Empty(n) => n.first_token(),
        }
    }

    fn last_token(&self) -> (res: &TerminalNode) {
        match self {
            MethodElement::Option(n) => n.last_token(),
            MethodElement::Empty(n) => n.last_token(),
        }
    }

    fn as_node_trait(&self) -> (res: Node) {
        match self {
            MethodElement::Option(n) => n.as_node_trait(),
            MethodElement::Empty(n) => n.as_node_trait(),
        }
    }
}

impl OptionNode {
    /// The option as an element of a method body.
    pub fn method_element(self) -> (res: MethodElement)
        ensures
            res == MethodElement::Option(self),
    {
        MethodElement::Option(self)
    }
}

impl EmptyDeclNode {
    /// The empty declaration as an element of a method body.
    pub fn method_element(self) -> (res: MethodElement)
        ensures
            res == MethodElement::Empty(self),
    {
        MethodElement::Empty(self)
    }
}

} // verus!
