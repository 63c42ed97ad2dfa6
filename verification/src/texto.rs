//! Operações de texto sobre sequências de caracteres, com os poucos pontos
//! em que a biblioteca padrão faz o trabalho (classificação Unicode e
//! conversões entre `&str`, `String` e `Vec<char>`).

use vstd::prelude::*;
use vstd::string::*;

verus! {

/// Os caracteres de `s`, em ordem (`str::chars` coletado em um `Vec`).
/// Afirma que o vetor tem exatamente os caracteres de `s`; o limite de tamanho
/// vem da capacidade máxima documentada de um `Vec` (`isize::MAX` bytes).
#[verifier::external_body]
pub(crate) fn caracteres(s: &str) -> (v: Vec<char>)
    ensures
        v@ == s@,
        v@.len() <= isize::MAX,
{
    s.chars().collect()
}

/// Um `String` com os caracteres dados (coleta de um iterador de `char`).
/// Afirma que o texto produzido tem exatamente esses caracteres.
#[verifier::external_body]
pub(crate) fn texto_de(v: &[char]) -> (s: String)
    ensures
        s@ == v@,
{
    v.iter().collect()
}

/// Acrescenta um caractere ao fim do texto (`String::push`).
/// Afirma que o novo texto é o antigo seguido de `c`.
#[verifier::external_body]
pub(crate) fn empurrar(s: &mut String, c: char)
    ensures
        final(s)@ == old(s)@.push(c),
{
    s.push(c)
}

/// Se `c` é uma letra segundo o Unicode (`char::is_alphabetic`).
pub uninterp spec fn eh_alfabetico(c: char) -> bool;

/// Se `c` é letra ou dígito segundo o Unicode (`char::is_alphanumeric`).
pub uninterp spec fn eh_alfanumerico(c: char) -> bool;

/// `char::is_alphabetic`; o resultado é dado pelo nome `eh_alfabetico`.
/// A documentação de `char::is_alphanumeric` diz que toda letra é alfanumérica,
/// o que a segunda cláusula registra.
#[verifier::external_body]
pub(crate) fn alfabetico(c: char) -> (r: bool)
    ensures
        r == eh_alfabetico(c),
        r ==> eh_alfanumerico(c),
{
    c.is_alphabetic()
}

/// `char::is_alphanumeric`; o resultado é dado pelo nome `eh_alfanumerico`.
#[verifier::external_body]
pub(crate) fn alfanumerico(c: char) -> (r: bool)
    ensures
        r == eh_alfanumerico(c),
{
    c.is_alphanumeric()
}

/// Um dígito decimal ASCII.
pub open spec fn eh_digito(c: char) -> bool {
    '0' <= c && c <= '9'
}

pub fn digito(c: char) -> (r: bool)
    ensures
        r == eh_digito(c),
{
    '0' <= c && c <= '9'
}

/// O valor numérico de uma sequência de dígitos decimais.
pub open spec fn valor_digitos(s: Seq<char>) -> nat
    decreases s.len(),
{
    if s.len() == 0 {
        0
    } else {
        valor_digitos(s.drop_last()) * 10 + ((s.last() as int - '0' as int) as nat)
    }
}

/// Todos os caracteres são dígitos decimais.
pub open spec fn so_digitos(s: Seq<char>) -> bool {
    forall|i: int| 0 <= i < s.len() ==> eh_digito(#[trigger] s[i])
}

/// Compara uma sequência de caracteres com um literal.
pub fn igual_literal(v: &[char], lit: &str) -> (r: bool)
    ensures
        r == (v@ == lit@),
{
    let n = lit.unicode_len();
    if v.len() != n {
        return false;
    }
    let mut i: usize = 0;
    while i < n
        invariant
            n == lit@.len(),
            v@.len() == n,
            i <= n,
            forall|j: int| 0 <= j < i ==> v@[j] == lit@[j],
        decreases n - i,
    {
        if v[i] != lit.get_char(i) {
            return false;
        }
        i = i + 1;
    }
    assert(v@ =~= lit@);
    true
}

/// Escreve um número natural em decimal.
pub open spec fn decimal(n: nat) -> Seq<char>
    decreases n,
{
    if n < 10 {
        seq![digito_de(n)]
    } else {
        decimal(n / 10).push(digito_de(n % 10))
    }
}

pub open spec fn digito_de(d: nat) -> char {
    if d == 0 { '0' }
    else if d == 1 { '1' }
    else if d == 2 { '2' }
    else if d == 3 { '3' }
    else if d == 4 { '4' }
    else if d == 5 { '5' }
    else if d == 6 { '6' }
    else if d == 7 { '7' }
    else if d == 8 { '8' }
    else { '9' }
}

fn digito_exec(d: usize) -> (c: char)
    requires
        d < 10,
    ensures
        c == digito_de(d as nat),
{
    if d == 0 { '0' }
    else if d == 1 { '1' }
    else if d == 2 { '2' }
    else if d == 3 { '3' }
    else if d == 4 { '4' }
    else if d == 5 { '5' }
    else if d == 6 { '6' }
    else if d == 7 { '7' }
    else if d == 8 { '8' }
    else { '9' }
}

/// Acrescenta ao texto a escrita decimal de `n`.
pub fn escrever_numero(s: &mut String, n: usize)
    ensures
        final(s)@ == old(s)@ + decimal(n as nat),
    decreases n,
{
    if n < 10 {
        empurrar(s, digito_exec(n));
        assert(decimal(n as nat) =~= seq![digito_de(n as nat)]);
    } else {
        escrever_numero(s, n / 10);
        empurrar(s, digito_exec(n % 10));
        assert(old(s)@ + decimal(n as nat) =~= old(s)@ + decimal((n / 10) as nat) + seq![
            digito_de((n % 10) as nat),
        ]);
    }
}

/// O texto de um número natural em decimal.
pub fn numero_para_texto(n: usize) -> (s: String)
    ensures
        s@ == decimal(n as nat),
{
    let mut s = String::new();
    escrever_numero(&mut s, n);
    assert(s@ =~= decimal(n as nat));
    s
}

/// Um texto novo com os caracteres do literal.
pub fn texto(lit: &str) -> (s: String)
    ensures
        s@ == lit@,
{
    String::from_str(lit)
}

/// Acrescenta um literal ao texto.
pub fn juntar(s: &mut String, lit: &str)
    ensures
        final(s)@ == old(s)@ + lit@,
{
    s.append(lit);
}

/// O texto sem os espaços em branco (Unicode) do começo e do fim, como
/// `str::trim` o dá.
pub uninterp spec fn aparado(s: Seq<char>) -> Seq<char>;

/// O texto em maiúsculas, como `str::to_uppercase` o dá.
pub uninterp spec fn em_maiusculas(s: Seq<char>) -> Seq<char>;

/// O texto em minúsculas, como `str::to_lowercase` o dá.
pub uninterp spec fn em_minusculas(s: Seq<char>) -> Seq<char>;

/// `str::trim`, copiado num `String`; o resultado é dado pelo nome `aparado`.
#[verifier::external_body]
pub(crate) fn aparar(s: &str) -> (r: String)
    ensures
        r@ == aparado(s@),
{
    s.trim().to_string()
}

/// `str::to_uppercase`; o resultado é dado pelo nome `em_maiusculas`.
#[verifier::external_body]
pub(crate) fn maiusculas(s: &str) -> (r: String)
    ensures
        r@ == em_maiusculas(s@),
{
    s.to_uppercase()
}

/// `str::to_lowercase`; o resultado é dado pelo nome `em_minusculas`.
#[verifier::external_body]
pub(crate) fn minusculas(s: &str) -> (r: String)
    ensures
        r@ == em_minusculas(s@),
{
    s.to_lowercase()
}

/// `p` aparece em `s` como trecho contíguo.
pub open spec fn contem_trecho(s: Seq<char>, p: Seq<char>) -> bool {
    exists|i: int| 0 <= i && i + p.len() <= s.len() && #[trigger] s.subrange(i, i + p.len()) == p
}

/// Se o texto `p` aparece em `s` (`str::contains` com um padrão de texto).
pub fn contem(s: &str, p: &str) -> (r: bool)
    ensures
        r == contem_trecho(s@, p@),
{
    let cs = caracteres(s);
    let ps = caracteres(p);
    let n = cs.len();
    let m = ps.len();
    if m > n {
        assert forall|i: int| 0 <= i && i + m <= n implies #[trigger] s@.subrange(i, i + m) != p@ by {}
        return false;
    }
    let mut i: usize = 0;
    while i <= n - m
        invariant
            cs@ == s@,
            ps@ == p@,
            n == cs@.len(),
            m == ps@.len(),
            m <= n,
            i <= n - m + 1,
            forall|k: int| 0 <= k < i ==> #[trigger] s@.subrange(k, k + m) != p@,
        decreases n - i,
    {
        let mut j: usize = 0;
        let mut igual = true;
        while j < m
            invariant
                cs@ == s@,
                ps@ == p@,
                n == cs@.len(),
                m == ps@.len(),
                i + m <= n,
                j <= m,
                igual == forall|t: int| 0 <= t < j ==> cs@[i + t] == ps@[t],
            decreases m - j,
        {
            if cs[i + j] != ps[j] {
                igual = false;
            }
            j = j + 1;
        }
        if igual {
            assert(s@.subrange(i as int, i + m) =~= p@);
            return true;
        }
        assert(s@.subrange(i as int, i + m) != p@) by {
            let t = choose|t: int| 0 <= t < m && cs@[i + t] != ps@[t];
            assert(s@.subrange(i as int, i + m)[t] == cs@[i + t]);
        }
        i = i + 1;
    }
    false
}

/// Escrever um número em decimal e ler os dígitos de volta dá o mesmo
/// número, e o que se escreve são só dígitos.
pub proof fn lei_decimal_ida_e_volta(n: nat)
    ensures
        so_digitos(decimal(n)),
        valor_digitos(decimal(n)) == n,
    decreases n,
{
    let d = n % 10;
    assert(digito_de(d) as int - '0' as int == d && eh_digito(digito_de(d))) by {
        assert(d < 10);
    }
    if n < 10 {
        assert(decimal(n).drop_last() =~= Seq::<char>::empty());
        assert(valor_digitos(decimal(n).drop_last()) == 0);
        assert(decimal(n).last() == digito_de(d));
        assert(valor_digitos(decimal(n)) == valor_digitos(decimal(n).drop_last()) * 10 + ((decimal(n).last() as int
            - '0' as int) as nat));
    } else {
        lei_decimal_ida_e_volta(n / 10);
        let s = decimal(n);
        assert(s.drop_last() =~= decimal(n / 10));
        assert(s.last() == digito_de(d));
        assert(n == (n / 10) * 10 + d);
        assert(valor_digitos(s) == valor_digitos(s.drop_last()) * 10 + ((s.last() as int - '0' as int) as nat));
        assert forall|i: int| 0 <= i < s.len() implies eh_digito(#[trigger] s[i]) by {
            if i < s.len() - 1 {
                assert(s[i] == decimal(n / 10)[i]);
            }
        }
    }
}

} // verus!
