//! The registry of foreign classes: host types that scripts can instantiate.

use vstd::prelude::*;

verus! {

/// A method of a foreign class, implemented by the host.
#[derive(Debug, Clone)]
pub struct ForeignMethod {
    pub name: String,
    pub is_static: bool,
}

/// A host type exposed to scripts as a class of a module. Its instances take
/// `size` bytes of memory, aligned to `align`, that the virtual machine
/// reserves.
#[derive(Debug, Clone)]
pub struct ForeignClass {
    pub module: String,
    pub name: String,
    pub size: usize,
    pub align: usize,
    pub methods: Vec<ForeignMethod>,
}

impl ForeignClass {
    /// The class `name` of `module` whose instances are values of type `T`.
    pub fn new_for<T>(module: &str, name: &str, methods: Vec<ForeignMethod>) -> (r: ForeignClass)
        ensures
            r.module@ == module@,
            r.name@ == name@,
            r.size as nat == vstd::layout::size_of::<T>(),
            r.align as nat == vstd::layout::align_of::<T>(),
            r.methods == methods,
    {
        ForeignClass {
            module: module.to_owned(),
            name: name.to_owned(),
            size: core::mem::size_of::<T>(),
            align: core::mem::align_of::<T>(),
            methods,
        }
    }
}

/// What a foreign class is known by: its module and its name.
pub open spec fn class_key(c: ForeignClass) -> (Seq<char>, Seq<char>) {
    (c.module@, c.name@)
}

/// What a foreign method is known by: its name (its signature) and whether it is static.
pub open spec fn method_key(m: ForeignMethod) -> (Seq<char>, bool) {
    (m.name@, m.is_static)
}

/// How the machine is to allocate instances of a foreign class that a script
/// declares.
#[derive(Debug, Clone, Copy, PartialEq, Eq, Structural, Hash)]
pub enum ClassBinding {
    /// A registered class: each instance takes `size` bytes, and finalizing
    /// one runs the destructor of the class at `index`.
    Registered { index: usize, size: usize },
    /// No class is registered under that module and name: there is neither
    /// allocator nor finalizer, and the machine raises a runtime error when
    /// the class is used.
    Unbound,
}

/// The foreign classes, in the order of registration. No two share a module
/// and a name.
#[derive(Debug)]
pub struct ForeignRegistry {
    classes: Vec<ForeignClass>,
}

/// Whether `text` holds the characters `chars`.
fn same_text(text: &String, chars: &str) -> (r: bool)
    ensures
        r == (text@ == chars@),
{
    let owned = chars.to_owned();
    *text == owned
}

impl ForeignRegistry {
    /// The registered classes, in the order of registration.
    pub closed spec fn classes(&self) -> Seq<ForeignClass> {
        self.classes@
    }

    /// No two registered classes share a module and a name.
    pub open spec fn wf(&self) -> bool {
        forall|i: int, j: int|
            0 <= i < j < self.classes().len() ==> class_key(#[trigger] self.classes()[i])
                != class_key(#[trigger] self.classes()[j])
    }

    /// A registry with no classes.
    pub fn new() -> (r: ForeignRegistry)
        ensures
            r.wf(),
            r.classes() == Seq::<ForeignClass>::empty(),
    {
        ForeignRegistry { classes: Vec::new() }
    }

    /// The number of registered classes.
    pub fn len(&self) -> (r: usize)
        ensures
            r == self.classes().len(),
    {
        self.classes.len()
    }

    /// The position of the class `name` of `module`, if it is registered.
    pub fn find_class(&self, module: &str, name: &str) -> (r: Option<usize>)
        ensures
            r matches Some(i) ==> i < self.classes().len() && class_key(self.classes()[i as int])
                == (module@, name@),
            r is None ==> forall|i: int|
                0 <= i < self.classes().len() ==> class_key(#[trigger] self.classes()[i])
                    != (module@, name@),
    {
        let mut i: usize = 0;
        while i < self.classes.len()
            invariant
                i <= self.classes@.len(),
                forall|k: int|
                    0 <= k < i ==> class_key(#[trigger] self.classes@[k]) != (module@, name@),
            decreases self.classes@.len() - i,
        {
            let c = &self.classes[i];
            if same_text(&c.module, module) && same_text(&c.name, name) {
                return Some(i);
            }
            i = i + 1;
        }
        None
    }

    /// Registers `class`, which must not share its module and name with a
    /// class already registered; such a class is handed back.
    pub fn register(&mut self, class: ForeignClass) -> (r: Result<usize, ForeignClass>)
        requires
            old(self).wf(),
        ensures
            final(self).wf(),
            (exists|i: int|
                0 <= i < old(self).classes().len() && class_key(
                    #[trigger] old(self).classes()[i],
                ) == class_key(class)) <==> r is Err,
            r matches Ok(i) ==> i == old(self).classes().len() && final(self).classes()
                == old(self).classes().push(class),
            r matches Err(c) ==> c == class && final(self).classes() == old(self).classes(),
    {
        match self.find_class(class.module.as_str(), class.name.as_str()) {
            Some(i) => {
                proof {
                    assert(class_key(self.classes()[i as int]) == class_key(class));
                }
                Err(class)
            },
            None => {
                let i = self.classes.len();
                self.classes.push(class);
                proof {
                    assert forall|a: int, b: int|
                        0 <= a < b < self.classes().len() implies class_key(
                        #[trigger] self.classes()[a],
                    ) != class_key(#[trigger] self.classes()[b]) by {
                        if b == i {
                            assert(self.classes()[a] == old(self).classes()[a]);
                        }
                    }
                }
                Ok(i)
            },
        }
    }

    /// The binding of the class `name` of `module`.
    pub fn bind_class(&self, module: &str, name: &str) -> (r: ClassBinding)
        ensures
            r matches ClassBinding::Registered { index, size } ==> index < self.classes().len()
                && class_key(self.classes()[index as int]) == (module@, name@) && size
                == self.classes()[index as int].size,
            r is Unbound <==> forall|i: int|
                0 <= i < self.classes().len() ==> class_key(#[trigger] self.classes()[i])
                    != (module@, name@),
    {
        match self.find_class(module, name) {
            Some(index) => ClassBinding::Registered { index, size: self.class_size(index) },
            None => ClassBinding::Unbound,
        }
    }

    /// The positions of the class `name` of `module` and of its method with
    /// `signature` that is static exactly when `is_static` is, if both exist.
    pub fn bind_method(&self, module: &str, name: &str, is_static: bool, signature: &str) -> (r:
        Option<(usize, usize)>)
        requires
            self.wf(),
        ensures
            r matches Some((c, k)) ==> c < self.classes().len() && class_key(
                self.classes()[c as int],
            ) == (module@, name@) && k < self.classes()[c as int].methods@.len() && method_key(
                self.classes()[c as int].methods@[k as int],
            ) == (signature@, is_static),
            r is None <==> forall|c: int, k: int|
                0 <= c < self.classes().len() && 0 <= k < self.classes()[c].methods@.len()
                    ==> !(class_key(#[trigger] self.classes()[c]) == (module@, name@) && method_key(
                    #[trigger] self.classes()[c].methods@[k],
                ) == (signature@, is_static)),
    {
        match self.find_class(module, name) {
            Some(c) => match self.find_method(c, signature, is_static) {
                Some(k) => Some((c, k)),
                None => {
                    proof {
                        assert forall|c2: int, k: int|
                            0 <= c2 < self.classes().len() && 0 <= k < self.classes()[c2].methods@.len()
                                implies !(class_key(#[trigger] self.classes()[c2]) == (
                            module@,
                            name@,
                        ) && method_key(#[trigger] self.classes()[c2].methods@[k]) == (
                            signature@,
                            is_static,
                        )) by {
                            if class_key(self.classes()[c2]) == (module@, name@) && c2 != c {
                                if c2 < c {
                                    assert(class_key(self.classes()[c2]) != class_key(
                                        self.classes()[c as int],
                                    ));
                                } else {
                                    assert(class_key(self.classes()[c as int]) != class_key(
                                        self.classes()[c2],
                                    ));
                                }
                            }
                        }
                    }
                    None
                },
            },
            None => None,
        }
    }

    /// The memory size of instances of the class at `index`.
    pub fn class_size(&self, index: usize) -> (r: usize)
        requires
            index < self.classes().len(),
        ensures
            r == self.classes()[index as int].size,
    {
        self.classes[index].size
    }

    /// The position of the method with `signature` among the methods of the
    /// class at `index`, if the class has one that is static exactly when
    /// `is_static` is.
    pub fn find_method(&self, index: usize, signature: &str, is_static: bool) -> (r: Option<
        usize,
    >)
        requires
            index < self.classes().len(),
        ensures
            r matches Some(k) ==> k < self.classes()[index as int].methods@.len() && method_key(
                self.classes()[index as int].methods@[k as int],
            ) == (signature@, is_static),
            r is None ==> forall|k: int|
                0 <= k < self.classes()[index as int].methods@.len() ==> method_key(
                    #[trigger] self.classes()[index as int].methods@[k],
                ) != (signature@, is_static),
    {
        let methods = &self.classes[index].methods;
        let mut k: usize = 0;
        while k < methods.len()
            invariant
                methods == &self.classes@[index as int].methods,
                k <= methods@.len(),
                forall|j: int|
                    0 <= j < k ==> method_key(#[trigger] methods@[j]) != (signature@, is_static),
            decreases methods@.len() - k,
        {
            let m = &methods[k];
            if m.is_static == is_static && same_text(&m.name, signature) {
                return Some(k);
            }
            k = k + 1;
        }
        None
    }
}

} // verus!
