//! Which methods, functions and types of the host's API get call signatures.
//! A restrictive policy keeps only a fixed set of classes and everything that
//! refers to no other class.
use vstd::prelude::*;
use vstd::string::StrSliceExecFns;

verus! {

/// How much of the host's API is exposed.
#[derive(Clone, Copy, Debug, PartialEq, Eq, Structural)]
pub enum ApiPolicy {
    /// Only the selected classes, and what refers to no other class.
    Minimal,
    /// Everything.
    Full,
}

/// What the filter knows of the API: the policy, the names of the builtin
/// (non-class) types and the classes that are removed altogether.
pub struct Context {
    pub policy: ApiPolicy,
    pub builtin_types: Vec<String>,
    pub deleted_classes: Vec<String>,
}

/// A method of a builtin type.
pub struct BuiltinClassMethod {
    pub name: String,
    pub is_vararg: bool,
}

/// A parameter of a method or function, with its type as the API writes it.
pub struct MethodArg {
    pub name: String,
    pub type_: String,
}

/// The return slot of a class method.
pub struct MethodReturn {
    pub type_: String,
}

/// A method of an engine class.
pub struct ClassMethod {
    pub name: String,
    pub arguments: Option<Vec<MethodArg>>,
    pub return_value: Option<MethodReturn>,
}

/// A free function of the host.
pub struct UtilityFunction {
    pub name: String,
    pub return_type: Option<String>,
    pub arguments: Option<Vec<MethodArg>>,
}

/// The classes that the minimal policy keeps.
pub open spec fn selected_class_spec(c: Seq<char>) -> bool {
    c == "AnimatedSprite2D"@
        || c == "ArrayMesh"@
        || c == "Area2D"@
        || c == "AudioStreamPlayer"@
        || c == "BaseButton"@
        || c == "Button"@
        || c == "BoxMesh"@
        || c == "Camera2D"@
        || c == "Camera3D"@
        || c == "CanvasItem"@
        || c == "CanvasLayer"@
        || c == "ClassDB"@
        || c == "CollisionObject2D"@
        || c == "CollisionShape2D"@
        || c == "Control"@
        || c == "Engine"@
        || c == "FileAccess"@
        || c == "HTTPRequest"@
        || c == "Image"@
        || c == "ImageTextureLayered"@
        || c == "Input"@
        || c == "InputEvent"@
        || c == "InputEventAction"@
        || c == "Label"@
        || c == "MainLoop"@
        || c == "Marker2D"@
        || c == "Mesh"@
        || c == "Node"@
        || c == "Node2D"@
        || c == "Node3D"@
        || c == "Node3DGizmo"@
        || c == "Object"@
        || c == "OS"@
        || c == "PackedScene"@
        || c == "PathFollow2D"@
        || c == "PhysicsBody2D"@
        || c == "PrimitiveMesh"@
        || c == "RefCounted"@
        || c == "RenderingServer"@
        || c == "Resource"@
        || c == "ResourceFormatLoader"@
        || c == "ResourceLoader"@
        || c == "RigidBody2D"@
        || c == "SceneTree"@
        || c == "Sprite2D"@
        || c == "SpriteFrames"@
        || c == "TextServer"@
        || c == "TextServerExtension"@
        || c == "Texture"@
        || c == "Texture2DArray"@
        || c == "TextureLayered"@
        || c == "Time"@
        || c == "Timer"@
        || c == "Window"@
        || c == "Viewport"@
}

pub open spec fn has_prefix(s: Seq<char>, p: Seq<char>) -> bool {
    p.len() <= s.len() && s.subrange(0, p.len() as int) == p
}

/// `s` without its prefix `p`.
pub open spec fn after(s: Seq<char>, p: Seq<char>) -> Seq<char> {
    s.subrange(p.len() as int, s.len() as int)
}

/// `list` holds a string with the characters `name`.
pub open spec fn contains_name(list: Seq<String>, name: Seq<char>) -> bool {
    exists|i: int| 0 <= i < list.len() && (#[trigger] list[i])@ == name
}

/// `i` is the position of the first `.` in `s`.
pub open spec fn is_first_dot(s: Seq<char>, i: int) -> bool {
    &&& 0 <= i < s.len()
    &&& s[i] == '.'
    &&& forall|j: int| 0 <= j < i ==> s[j] != '.'
}

pub open spec fn class_excluded_spec(policy: ApiPolicy, class: Seq<char>) -> bool {
    policy == ApiPolicy::Minimal && !selected_class_spec(class)
}

/// An enum or bitfield type without its `enum::` or `bitfield::` prefix.
pub open spec fn enum_rest(ty: Seq<char>) -> Seq<char> {
    if has_prefix(ty, "enum::"@) {
        after(ty, "enum::"@)
    } else {
        after(ty, "bitfield::"@)
    }
}

/// The enum named by `rest` lies inside a class (written `Class.Enum`) that
/// the policy leaves out.
pub open spec fn enclosing_class_excluded(rest: Seq<char>, policy: ApiPolicy) -> bool {
    exists|i: int| #[trigger]
        is_first_dot(rest, i) && class_excluded_spec(policy, rest.subrange(0, i))
}

/// The pointee of a pointer type, without a leading `const `.
pub open spec fn pointee(ty: Seq<char>) -> Seq<char> {
    let inner = ty.drop_last();
    if has_prefix(inner, "const "@) {
        after(inner, "const "@)
    } else {
        inner
    }
}

/// A type is excluded when it refers to a class that the policy leaves out:
/// as the class itself, as the element class of a typed array, as the class
/// that encloses an enum or bitfield, or through a pointer to such a type.
pub open spec fn type_excluded_spec(ty: Seq<char>, ctx: Context) -> bool
    decreases ty.len(),
{
    if ty.len() > 0 && ty.last() == '*' {
        type_excluded_spec(pointee(ty), ctx)
    } else if has_prefix(ty, "typedarray::"@) {
        let elem = after(ty, "typedarray::"@);
        !contains_name(ctx.builtin_types@, elem) && class_excluded_spec(ctx.policy, elem)
    } else if has_prefix(ty, "enum::"@) || has_prefix(ty, "bitfield::"@) {
        enclosing_class_excluded(enum_rest(ty), ctx.policy)
    } else if contains_name(ctx.builtin_types@, ty) {
        false
    } else {
        class_excluded_spec(ctx.policy, ty)
    }
}

/// An argument or return type that keeps a class method out.
pub open spec fn arg_or_return_excluded(ty: Seq<char>, ctx: Context) -> bool {
    contains_name(ctx.deleted_classes@, ty) || type_excluded_spec(ty, ctx)
}

pub open spec fn method_excluded_spec(method: ClassMethod, is_virtual_impl: bool, ctx: Context) -> bool {
    ||| (method.return_value matches Some(ret) && arg_or_return_excluded(ret.type_@, ctx))
    ||| (method.arguments matches Some(args) && exists|i: int|
        0 <= i < args@.len() && arg_or_return_excluded((#[trigger] args@[i]).type_@, ctx))
    ||| (!is_virtual_impl && method.name@.len() > 0 && method.name@[0] == '_')
}

pub open spec fn function_excluded_spec(function: UtilityFunction, ctx: Context) -> bool {
    ||| (function.return_type matches Some(ret) && type_excluded_spec(ret@, ctx))
    ||| (function.arguments matches Some(args) && exists|i: int|
        0 <= i < args@.len() && type_excluded_spec((#[trigger] args@[i]).type_@, ctx))
}

/// Whether two strings hold the same characters.
pub fn str_eq(a: &str, b: &str) -> (r: bool)
    ensures
        r == (a@ == b@),
{
    let n = a.unicode_len();
    if n != b.unicode_len() {
        return false;
    }
    let mut i: usize = 0;
    while i < n
        invariant
            n == a@.len(),
            n == b@.len(),
            i <= n,
            a@.subrange(0, i as int) == b@.subrange(0, i as int),
        decreases n - i,
    {
        if a.get_char(i) != b.get_char(i) {
            assert(a@[i as int] != b@[i as int]);
            return false;
        }
        assert(a@.subrange(0, i + 1) =~= a@.subrange(0, i as int).push(a@[i as int]));
        assert(b@.subrange(0, i + 1) =~= b@.subrange(0, i as int).push(b@[i as int]));
        i = i + 1;
    }
    assert(a@ =~= a@.subrange(0, n as int));
    assert(b@ =~= b@.subrange(0, n as int));
    true
}

/// Whether `s` begins with `p`.
pub fn starts_with(s: &str, p: &str) -> (r: bool)
    ensures
        r == has_prefix(s@, p@),
{
    let n = p.unicode_len();
    if n > s.unicode_len() {
        return false;
    }
    str_eq(s.substring_char(0, n), p)
}

/// Whether `list` holds a string with the characters of `name`.
pub fn contains_str(list: &Vec<String>, name: &str) -> (r: bool)
    ensures
        r == contains_name(list@, name@),
{
    let mut i: usize = 0;
    while i < list.len()
        invariant
            i <= list@.len(),
            forall|j: int| 0 <= j < i ==> (#[trigger] list@[j])@ != name@,
        decreases list.len() - i,
    {
        if str_eq(list[i].as_str(), name) {
            return true;
        }
        i = i + 1;
    }
    false
}

/// Whether the minimal policy keeps `class`.
pub fn is_selected_class(class: &str) -> (r: bool)
    ensures
        r == selected_class_spec(class@),
{
    str_eq(class, "AnimatedSprite2D")
        || str_eq(class, "ArrayMesh")
        || str_eq(class, "Area2D")
        || str_eq(class, "AudioStreamPlayer")
        || str_eq(class, "BaseButton")
        || str_eq(class, "Button")
        || str_eq(class, "BoxMesh")
        || str_eq(class, "Camera2D")
        || str_eq(class, "Camera3D")
        || str_eq(class, "CanvasItem")
        || str_eq(class, "CanvasLayer")
        || str_eq(class, "ClassDB")
        || str_eq(class, "CollisionObject2D")
        || str_eq(class, "CollisionShape2D")
        || str_eq(class, "Control")
        || str_eq(class, "Engine")
        || str_eq(class, "FileAccess")
        || str_eq(class, "HTTPRequest")
        || str_eq(class, "Image")
        || str_eq(class, "ImageTextureLayered")
        || str_eq(class, "Input")
        || str_eq(class, "InputEvent")
        || str_eq(class, "InputEventAction")
        || str_eq(class, "Label")
        || str_eq(class, "MainLoop")
        || str_eq(class, "Marker2D")
        || str_eq(class, "Mesh")
        || str_eq(class, "Node")
        || str_eq(class, "Node2D")
        || str_eq(class, "Node3D")
        || str_eq(class, "Node3DGizmo")
        || str_eq(class, "Object")
        || str_eq(class, "OS")
        || str_eq(class, "PackedScene")
        || str_eq(class, "PathFollow2D")
        || str_eq(class, "PhysicsBody2D")
        || str_eq(class, "PrimitiveMesh")
        || str_eq(class, "RefCounted")
        || str_eq(class, "RenderingServer")
        || str_eq(class, "Resource")
        || str_eq(class, "ResourceFormatLoader")
        || str_eq(class, "ResourceLoader")
        || str_eq(class, "RigidBody2D")
        || str_eq(class, "SceneTree")
        || str_eq(class, "Sprite2D")
        || str_eq(class, "SpriteFrames")
        || str_eq(class, "TextServer")
        || str_eq(class, "TextServerExtension")
        || str_eq(class, "Texture")
        || str_eq(class, "Texture2DArray")
        || str_eq(class, "TextureLayered")
        || str_eq(class, "Time")
        || str_eq(class, "Timer")
        || str_eq(class, "Window")
        || str_eq(class, "Viewport")
}

/// Builtin methods that take trailing variadic arguments are left out.
pub fn is_builtin_method_excluded(method: &BuiltinClassMethod) -> (r: bool)
    ensures
        r == method.is_vararg,
{
    method.is_vararg
}

/// Whether the policy leaves out the class `class`.
pub fn is_class_excluded(class: &str, policy: ApiPolicy) -> (r: bool)
    ensures
        r == class_excluded_spec(policy, class@),
{
    match policy {
        ApiPolicy::Full => false,
        ApiPolicy::Minimal => !is_selected_class(class),
    }
}

/// Whether the type `ty`, as the API writes it, refers to a left-out class.
pub fn is_type_excluded(ty: &str, ctx: &Context) -> (r: bool)
    ensures
        r == type_excluded_spec(ty@, *ctx),
    decreases ty@.len(),
{
    let n = ty.unicode_len();
    if n > 0 && ty.get_char(n - 1) == '*' {
        let inner = ty.substring_char(0, n - 1);
        assert(inner@ == ty@.drop_last());
        let pointee = if starts_with(inner, "const ") {
            inner.substring_char("const ".unicode_len(), inner.unicode_len())
        } else {
            inner
        };
        return is_type_excluded(pointee, ctx);
    }
    if starts_with(ty, "typedarray::") {
        let elem = ty.substring_char("typedarray::".unicode_len(), n);
        return !contains_str(&ctx.builtin_types, elem) && is_class_excluded(elem, ctx.policy);
    }
    let is_enum = starts_with(ty, "enum::");
    if is_enum || starts_with(ty, "bitfield::") {
        let rest = if is_enum {
            ty.substring_char("enum::".unicode_len(), n)
        } else {
            ty.substring_char("bitfield::".unicode_len(), n)
        };
        let m = rest.unicode_len();
        let mut i: usize = 0;
        while i < m && rest.get_char(i) != '.'
            invariant
                m == rest@.len(),
                i <= m,
                forall|j: int| 0 <= j < i ==> rest@[j] != '.',
            decreases m - i,
        {
            i = i + 1;
        }
        if i == m {
            assert(rest@ == enum_rest(ty@));
            assert(!enclosing_class_excluded(rest@, ctx.policy));
            return false;
        }
        assert(is_first_dot(rest@, i as int));
        assert forall|k: int| is_first_dot(rest@, k) implies k == i by {
            if k < i {
                assert(rest@[k] != '.');
            } else if k > i {
                assert(rest@[i as int] == '.');
            }
        }
        let class = rest.substring_char(0, i);
        let r = is_class_excluded(class, ctx.policy);
        assert(rest@ == enum_rest(ty@));
        assert(r == enclosing_class_excluded(rest@, ctx.policy));
        return r;
    }
    if contains_str(&ctx.builtin_types, ty) {
        return false;
    }
    is_class_excluded(ty, ctx.policy)
}

fn is_arg_or_return_excluded(ty: &str, ctx: &Context) -> (r: bool)
    ensures
        r == arg_or_return_excluded(ty@, *ctx),
{
    contains_str(&ctx.deleted_classes, ty) || is_type_excluded(ty, ctx)
}

/// A class method is left out when its return type or any argument type is
/// deleted or refers to a left-out class, or when its name begins with `_`
/// (a virtual-dispatch hook) and it is not being processed as such.
pub fn is_method_excluded(method: &ClassMethod, is_virtual_impl: bool, ctx: &Context) -> (r: bool)
    ensures
        r == method_excluded_spec(*method, is_virtual_impl, *ctx),
{
    if let Some(ret) = &method.return_value {
        if is_arg_or_return_excluded(ret.type_.as_str(), ctx) {
            return true;
        }
    }
    if let Some(args) = &method.arguments {
        let mut i: usize = 0;
        while i < args.len()
            invariant
                method.arguments == Some(*args),
                !(method.return_value matches Some(ret) && arg_or_return_excluded(ret.type_@, *ctx)),
                i <= args@.len(),
                forall|j: int| 0 <= j < i ==> !arg_or_return_excluded((#[trigger] args@[j]).type_@, *ctx),
            decreases args.len() - i,
        {
            if is_arg_or_return_excluded(args[i].type_.as_str(), ctx) {
                assert(arg_or_return_excluded(args@[i as int].type_@, *ctx));
                assert(method.arguments matches Some(a) && a@[i as int].type_@ == args@[i as int].type_@);
                return true;
            }
            i = i + 1;
        }
    }
    let name = method.name.as_str();
    !is_virtual_impl && name.unicode_len() > 0 && name.get_char(0) == '_'
}

/// A free function is left out when its return type or any argument type
/// refers to a left-out class.
pub fn is_function_excluded(function: &UtilityFunction, ctx: &Context) -> (r: bool)
    ensures
        r == function_excluded_spec(*function, *ctx),
{
    if let Some(ret) = &function.return_type {
        if is_type_excluded(ret.as_str(), ctx) {
            return true;
        }
    }
    if let Some(args) = &function.arguments {
        let mut i: usize = 0;
        while i < args.len()
            invariant
                function.arguments == Some(*args),
                !(function.return_type matches Some(ret) && type_excluded_spec(ret@, *ctx)),
                i <= args@.len(),
                forall|j: int| 0 <= j < i ==> !type_excluded_spec((#[trigger] args@[j]).type_@, *ctx),
            decreases args.len() - i,
        {
            if is_type_excluded(args[i].type_.as_str(), ctx) {
                assert(type_excluded_spec(args@[i as int].type_@, *ctx));
                assert(function.arguments matches Some(a) && a@[i as int].type_@ == args@[i as int].type_@);
                return true;
            }
            i = i + 1;
        }
    }
    false
}

} // verus!
