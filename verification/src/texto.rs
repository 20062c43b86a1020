//! Utilidades de texto: comparación de cadenas y escritura decimal de enteros.

use vstd::prelude::*;

verus! {

/// Carácter del dígito decimal `d` (0..=9).
pub open spec fn digito(d: nat) -> char {
    (48 + d) as char
}

/// Escritura decimal de un natural, sin ceros a la izquierda.
pub open spec fn digitos(n: nat) -> Seq<char>
    decreases n,
{
    if n < 10 {
        seq![digito(n)]
    } else {
        digitos(n / 10) + seq![digito(n % 10)]
    }
}

/// Escritura decimal de un entero: signo `-` para los negativos.
pub open spec fn texto_entero(n: int) -> Seq<char> {
    if n < 0 {
        seq!['-'] + digitos((-n) as nat)
    } else {
        digitos(n as nat)
    }
}

/// El dígito decimal `d` como texto.
fn texto_de_digito(d: u128) -> (r: &'static str)
    requires
        d < 10,
    ensures
        r@ == seq![digito(d as nat)],
{
    proof {
        reveal_strlit("0");
        reveal_strlit("1");
        reveal_strlit("2");
        reveal_strlit("3");
        reveal_strlit("4");
        reveal_strlit("5");
        reveal_strlit("6");
        reveal_strlit("7");
        reveal_strlit("8");
        reveal_strlit("9");
    }
    if d == 0 {
        "0"
    } else if d == 1 {
        "1"
    } else if d == 2 {
        "2"
    } else if d == 3 {
        "3"
    } else if d == 4 {
        "4"
    } else if d == 5 {
        "5"
    } else if d == 6 {
        "6"
    } else if d == 7 {
        "7"
    } else if d == 8 {
        "8"
    } else {
        "9"
    }
}

/// La escritura decimal de un natural.
fn natural_a_texto(n: u128) -> (r: String)
    ensures
        r@ == digitos(n as nat),
    decreases n,
{
    if n < 10 {
        texto(texto_de_digito(n))
    } else {
        let p = natural_a_texto(n / 10);
        unir(p, texto_de_digito(n % 10))
    }
}

/// La escritura decimal de un entero, con `-` para los negativos (como la
/// escriben los `to_string` de los enteros de std).
pub(crate) fn i128_a_texto(n: i128) -> (r: String)
    ensures
        r@ == texto_entero(n as int),
{
    if n < 0 {
        let m: u128 = ((-(n + 1)) as u128) + 1;
        proof {
            reveal_strlit("-");
        }
        let d = natural_a_texto(m);
        unir(texto("-"), d.as_str())
    } else {
        natural_a_texto(n as u128)
    }
}

/// La escritura decimal de un `i64`.
pub(crate) fn i64_a_texto(n: i64) -> (r: String)
    ensures
        r@ == texto_entero(n as int),
{
    i128_a_texto(n as i128)
}

/// La escritura decimal de un `usize`.
pub(crate) fn usize_a_texto(n: usize) -> (r: String)
    ensures
        r@ == texto_entero(n as int),
{
    i128_a_texto(n as i128)
}

/// Compara dos cadenas por su contenido.
pub fn mismo_texto(a: &str, b: &str) -> (r: bool)
    ensures
        r == (a@ == b@),
{
    broadcast use vstd::string::group_string_axioms;
    let sa = a.to_string();
    let sb = b.to_string();
    sa == sb
}

/// Concatena una cadena a otra ya construida.
pub fn unir(base: String, otra: &str) -> (r: String)
    ensures
        r@ == base@ + otra@,
{
    base.concat(otra)
}

/// Crea una cadena propia con el contenido de `s`.
pub fn texto(s: &str) -> (r: String)
    ensures
        r@ == s@,
{
    String::from_str(s)
}


/// Dos dígitos decimales de `n` (0..=99).
pub open spec fn dos_digitos(n: int) -> Seq<char> {
    seq![digito((n / 10) as nat), digito((n % 10) as nat)]
}

/// El valor absoluto.
pub open spec fn valor_absoluto(x: int) -> int {
    if x < 0 {
        -x
    } else {
        x
    }
}

/// Un monto en céntimos escrito en soles con dos decimales (`-12.05`).
pub open spec fn soles_escritos(c: int) -> Seq<char> {
    let a = valor_absoluto(c);
    (if c < 0 {
        seq!['-']
    } else {
        Seq::<char>::empty()
    }) + digitos((a / 100) as nat) + seq!['.'] + dos_digitos(a % 100)
}

/// Escribe un monto en céntimos como soles con dos decimales.
pub fn escribir_soles(c: i128) -> (r: String)
    requires
        c > i128::MIN,
    ensures
        r@ == soles_escritos(c as int),
{
    let a: i128 = if c < 0 { -c } else { c };
    let entero = i128_a_texto(a / 100);
    let resto = a % 100;
    let r = if c < 0 { texto("-") } else { texto("") };
    let r = unir(r, entero.as_str());
    let r = unir(r, ".");
    let cent = i128_a_texto(resto);
    proof {
        reveal_strlit("-");
        reveal_strlit("");
        reveal_strlit(".");
        reveal_strlit("0");
        reveal_with_fuel(digitos, 2);
        assert(texto_entero((a / 100) as int) == digitos(((a / 100) as int) as nat));
    }
    let r = if resto < 10 {
        let r = unir(r, "0");
        unir(r, cent.as_str())
    } else {
        unir(r, cent.as_str())
    };
    r
}

} // verus!
