//! Os métodos dos textos da kaju (`t.divida(sep)`, `t.substitua(de, para)`,
//! `t.indiceDe(sub)`, ...) e o `junte` das listas, sobre sequências de
//! caracteres. Posições e tamanhos contam caracteres, não bytes.

use vstd::prelude::*;
use crate::texto::{caracteres, empurrar, juntar};

verus! {

/// `p` aparece em `s` começando na posição `i`.
pub open spec fn ocorre_em(s: Seq<char>, p: Seq<char>, i: int) -> bool {
    0 <= i && i + p.len() <= s.len() && s.subrange(i, i + p.len()) == p
}

/// Os caracteres de cada texto de uma sequência.
pub open spec fn vistas(v: Seq<String>) -> Seq<Seq<char>> {
    v.map_values(|x: String| x@)
}

// ---- divida ----

/// Os pedaços de `s` a partir da posição `i`, cortados em cada ocorrência de
/// `sep` (não vazio), procurada da esquerda para a direita e sem sobreposição;
/// `atual` é o pedaço que já vinha sendo montado antes de `i`.
pub open spec fn pedacos(s: Seq<char>, sep: Seq<char>, i: int, atual: Seq<char>) -> Seq<Seq<char>>
    decreases s.len() - i,
{
    if i >= s.len() || sep.len() == 0 {
        seq![atual]
    } else if ocorre_em(s, sep, i) {
        seq![atual] + pedacos(s, sep, i + sep.len(), Seq::empty())
    } else {
        pedacos(s, sep, i + 1, atual.push(s[i]))
    }
}

/// Cada caractere de `s` como um texto de um caractere só.
pub open spec fn letras(s: Seq<char>) -> Seq<Seq<char>> {
    Seq::new(s.len(), |k: int| seq![s[k]])
}

/// O resultado de `s.divida(sep)`: com separador vazio, os caracteres um a um;
/// senão, os trechos entre as ocorrências do separador (um texto sem o
/// separador dá um só pedaço, ele mesmo).
pub open spec fn dividido(s: Seq<char>, sep: Seq<char>) -> Seq<Seq<char>> {
    if sep.len() == 0 {
        letras(s)
    } else {
        pedacos(s, sep, 0, Seq::empty())
    }
}

/// Se `ps` aparece em `cs` na posição `i`.
fn ocorre(cs: &Vec<char>, ps: &Vec<char>, i: usize) -> (r: bool)
    ensures
        r == ocorre_em(cs@, ps@, i as int),
{
    let n = cs.len();
    let m = ps.len();
    if i > n || m > n - i {
        return false;
    }
    let mut j: usize = 0;
    while j < m
        invariant
            n == cs@.len(),
            m == ps@.len(),
            i + m <= n,
            j <= m,
            forall|t: int| 0 <= t < j ==> cs@[i + t] == ps@[t],
        decreases m - j,
    {
        if cs[i + j] != ps[j] {
            assert(cs@.subrange(i as int, i + m)[j as int] != ps@[j as int]);
            return false;
        }
        j = j + 1;
    }
    assert(cs@.subrange(i as int, i + m) =~= ps@);
    true
}

/// `t.divida(sep)`: quebra o texto numa lista de pedacos.
pub fn dividir(t: &str, sep: &str) -> (r: Vec<String>)
    ensures
        vistas(r@) == dividido(t@, sep@),
        sep@.len() > 0 ==> forall|k: int, q: int| 0 <= k < r@.len() ==> !(#[trigger] ocorre_em(r@[k]@, sep@, q)),
        sep@.len() == 0 ==> r@.len() == t@.len() && forall|k: int|
            0 <= k < r@.len() ==> (#[trigger] r@[k])@ == seq![t@[k]],
{
    proof {
        if sep@.len() > 0 {
            lei_dividir_sem_separador(t@, sep@);
        }
    }
    let cs = caracteres(t);
    let ss = caracteres(sep);
    let n = cs.len();
    let m = ss.len();
    let mut partes: Vec<String> = Vec::new();
    if m == 0 {
        let mut k: usize = 0;
        while k < n
            invariant
                cs@ == t@,
                n == cs@.len(),
                k <= n,
                vistas(partes@) == letras(t@).take(k as int),
            decreases n - k,
        {
            let mut um = String::new();
            empurrar(&mut um, cs[k]);
            let ghost antes = partes@;
            partes.push(um);
            proof {
                assert(vistas(partes@) =~= vistas(antes).push(seq![t@[k as int]]));
                assert(letras(t@).take(k + 1) =~= letras(t@).take(k as int).push(seq![t@[k as int]]));
            }
            k = k + 1;
        }
        assert(letras(t@).take(n as int) =~= letras(t@));
        proof {
            assert forall|k: int| 0 <= k < partes@.len() implies (#[trigger] partes@[k])@ == seq![t@[k]] by {
                assert(vistas(partes@)[k] == partes@[k]@);
            }
        }
        return partes;
    }
    let mut atual = String::new();
    let mut i: usize = 0;
    proof {
        assert(vistas(partes@) + pedacos(t@, sep@, 0, atual@) =~= pedacos(t@, sep@, 0, Seq::empty()));
    }
    while i < n
        invariant
            cs@ == t@,
            ss@ == sep@,
            n == cs@.len(),
            m == ss@.len(),
            m > 0,
            i <= n,
            vistas(partes@) + pedacos(t@, sep@, i as int, atual@) == pedacos(t@, sep@, 0, Seq::empty()),
        decreases n - i,
    {
        let ghost antes = partes@;
        let ghost atual_antes = atual@;
        if ocorre(&cs, &ss, i) {
            partes.push(atual);
            atual = String::new();
            proof {
                assert(vistas(partes@) =~= vistas(antes).push(atual_antes));
                assert(vistas(partes@) + pedacos(t@, sep@, i + m, atual@) =~= vistas(antes) + (seq![
                    atual_antes,
                ] + pedacos(t@, sep@, i + m, Seq::empty())));
            }
            i = i + m;
        } else {
            empurrar(&mut atual, cs[i]);
            i = i + 1;
        }
    }
    let ghost antes = partes@;
    partes.push(atual);
    proof {
        assert(vistas(partes@) =~= vistas(antes).push(atual@));
        assert(vistas(partes@) =~= vistas(antes) + pedacos(t@, sep@, i as int, atual@));
        assert forall|k: int, q: int| 0 <= k < partes@.len() implies !(#[trigger] ocorre_em(partes@[k]@, sep@, q)) by {
            assert(vistas(partes@)[k] == partes@[k]@);
            assert(dividido(t@, sep@)[k] == partes@[k]@);
        }
    }
    partes
}

/// Os pedaços a partir de `i`, com `atual` sendo o trecho de `s` entre
/// `inicio` e `i` (onde nenhuma ocorrência do separador começa), não contêm
/// o separador.
proof fn lema_pedacos_sem_separador(s: Seq<char>, sep: Seq<char>, i: int, inicio: int, atual: Seq<char>)
    requires
        sep.len() > 0,
        0 <= inicio <= i,
        i <= s.len(),
        atual == s.subrange(inicio, i),
        forall|q: int| inicio <= q < i ==> !ocorre_em(s, sep, q),
    ensures
        forall|k: int, q: int|
            0 <= k < pedacos(s, sep, i, atual).len() ==> !(#[trigger] ocorre_em(pedacos(s, sep, i, atual)[k], sep, q)),
    decreases s.len() - i,
{
    assert forall|q: int| !ocorre_em(atual, sep, q) by {
        if ocorre_em(atual, sep, q) {
            assert(s.subrange(inicio + q, inicio + q + sep.len()) =~= atual.subrange(q, q + sep.len()));
            assert(ocorre_em(s, sep, inicio + q));
        }
    }
    let ps = pedacos(s, sep, i, atual);
    if i >= s.len() {
        assert(ps == seq![atual]);
        assert forall|k: int, q: int| 0 <= k < ps.len() implies !(#[trigger] ocorre_em(ps[k], sep, q)) by {
            assert(ps[k] == atual);
        }
    } else if ocorre_em(s, sep, i) {
        let j = i + sep.len();
        assert(s.subrange(j, j) =~= Seq::<char>::empty());
        lema_pedacos_sem_separador(s, sep, j, j, Seq::empty());
        let resto = pedacos(s, sep, j, Seq::empty());
        assert(ps == seq![atual] + resto);
        assert forall|k: int, q: int| 0 <= k < ps.len() implies !(#[trigger] ocorre_em(ps[k], sep, q)) by {
            if k > 0 {
                assert(ps[k] == resto[k - 1]);
                assert(!ocorre_em(resto[k - 1], sep, q));
            } else {
                assert(ps[k] == atual);
            }
        }
    } else {
        assert(atual.push(s[i]) =~= s.subrange(inicio, i + 1));
        lema_pedacos_sem_separador(s, sep, i + 1, inicio, atual.push(s[i]));
        assert(ps == pedacos(s, sep, i + 1, atual.push(s[i])));
    }
}

/// Dividir por um separador não vazio nunca deixa o separador dentro de um
/// pedaço: cada ocorrência dele no texto é um corte.
pub proof fn lei_dividir_sem_separador(s: Seq<char>, sep: Seq<char>)
    requires
        sep.len() > 0,
    ensures
        forall|k: int, q: int| 0 <= k < dividido(s, sep).len() ==> !(#[trigger] ocorre_em(dividido(s, sep)[k], sep, q)),
{
    assert(s.subrange(0, 0) =~= Seq::<char>::empty());
    lema_pedacos_sem_separador(s, sep, 0, 0, Seq::empty());
}

// ---- junte ----

/// Os textos unidos, com `sep` entre cada dois vizinhos.
pub open spec fn juntado(ps: Seq<Seq<char>>, sep: Seq<char>) -> Seq<char>
    decreases ps.len(),
{
    if ps.len() == 0 {
        Seq::empty()
    } else if ps.len() == 1 {
        ps[0]
    } else {
        juntado(ps.drop_last(), sep) + sep + ps.last()
    }
}

/// `lista.junte(sep)` sobre os textos dos elementos.
pub fn juntar_textos(partes: &Vec<String>, sep: &str) -> (r: String)
    ensures
        r@ == juntado(vistas(partes@), sep@),
{
    let mut r = String::new();
    let mut k: usize = 0;
    while k < partes.len()
        invariant
            k <= partes@.len(),
            r@ == juntado(vistas(partes@).take(k as int), sep@),
        decreases partes@.len() - k,
    {
        let ghost r_antes = r@;
        if k > 0 {
            juntar(&mut r, sep);
        }
        juntar(&mut r, partes[k].as_str());
        proof {
            let v = vistas(partes@);
            assert(v.take(k + 1).drop_last() =~= v.take(k as int));
            assert(v.take(k + 1).last() == partes@[k as int]@);
            if k == 0 {
                assert(r@ =~= v.take(1)[0]);
            }
        }
        k = k + 1;
    }
    assert(vistas(partes@).take(partes@.len() as int) =~= vistas(partes@));
    r
}

// ---- a volta: junte desfaz divida ----

proof fn lema_juntado_na_frente(a: Seq<char>, ps: Seq<Seq<char>>, sep: Seq<char>)
    requires
        ps.len() >= 1,
    ensures
        juntado(seq![a] + ps, sep) == a + sep + juntado(ps, sep),
    decreases ps.len(),
{
    let tudo = seq![a] + ps;
    assert(tudo.drop_last() =~= seq![a] + ps.drop_last());
    assert(tudo.last() == ps.last());
    assert(tudo.len() >= 2);
    if ps.len() == 1 {
        assert(seq![a] + ps.drop_last() =~= seq![a]);
        assert(juntado(seq![a], sep) == a);
        assert(juntado(ps, sep) == ps[0]);
    } else {
        lema_juntado_na_frente(a, ps.drop_last(), sep);
        assert(a + sep + juntado(ps.drop_last(), sep) + sep + ps.last() =~= a + sep + (juntado(
            ps.drop_last(),
            sep,
        ) + sep + ps.last()));
    }
}

proof fn lema_juntar_pedacos(s: Seq<char>, sep: Seq<char>, i: int, atual: Seq<char>)
    requires
        sep.len() > 0,
        0 <= i <= s.len(),
    ensures
        pedacos(s, sep, i, atual).len() >= 1,
        juntado(pedacos(s, sep, i, atual), sep) == atual + s.subrange(i, s.len() as int),
    decreases s.len() - i,
{
    if i >= s.len() {
        assert(atual + s.subrange(i, s.len() as int) =~= atual);
    } else if ocorre_em(s, sep, i) {
        let resto = pedacos(s, sep, i + sep.len(), Seq::empty());
        lema_juntar_pedacos(s, sep, i + sep.len(), Seq::empty());
        lema_juntado_na_frente(atual, resto, sep);
        assert(Seq::<char>::empty() + s.subrange(i + sep.len(), s.len() as int) =~= s.subrange(
            i + sep.len(),
            s.len() as int,
        ));
        assert(atual + sep + s.subrange(i + sep.len(), s.len() as int) =~= atual + s.subrange(
            i,
            s.len() as int,
        ));
    } else {
        lema_juntar_pedacos(s, sep, i + 1, atual.push(s[i]));
        assert(atual.push(s[i]) + s.subrange(i + 1, s.len() as int) =~= atual + s.subrange(
            i,
            s.len() as int,
        ));
    }
}

proof fn lema_juntar_letras(s: Seq<char>)
    ensures
        juntado(letras(s), Seq::empty()) == s,
    decreases s.len(),
{
    if s.len() == 0 {
    } else if s.len() == 1 {
        assert(letras(s)[0] =~= s);
    } else {
        lema_juntar_letras(s.drop_last());
        assert(letras(s).drop_last() =~= letras(s.drop_last()));
        assert(s.drop_last() + Seq::<char>::empty() + letras(s).last() =~= s);
    }
}

/// Juntar os pedaços de `s.divida(sep)` com o mesmo separador devolve `s`:
/// `junte` faz o caminho inverso de `divida`.
pub proof fn lei_juntar_desfaz_dividir(s: Seq<char>, sep: Seq<char>)
    ensures
        juntado(dividido(s, sep), sep) == s,
{
    if sep.len() == 0 {
        lema_juntar_letras(s);
        assert(sep =~= Seq::<char>::empty());
    } else {
        lema_juntar_pedacos(s, sep, 0, Seq::empty());
        assert(Seq::<char>::empty() + s.subrange(0, s.len() as int) =~= s);
    }
}

// ---- substitua ----

/// O texto a partir da posição `i` com cada ocorrência de `de` trocada por
/// `para`, da esquerda para a direita e sem sobreposição. Com `de` vazio,
/// `para` entra antes de cada caractere e no fim.
pub open spec fn substituido_de(s: Seq<char>, de: Seq<char>, para: Seq<char>, i: int) -> Seq<char>
    decreases s.len() - i,
{
    if i >= s.len() {
        if de.len() == 0 {
            para
        } else {
            Seq::empty()
        }
    } else if de.len() == 0 {
        para.push(s[i]) + substituido_de(s, de, para, i + 1)
    } else if ocorre_em(s, de, i) {
        para + substituido_de(s, de, para, i + de.len())
    } else {
        seq![s[i]] + substituido_de(s, de, para, i + 1)
    }
}

/// O resultado de `s.substitua(de, para)`.
pub open spec fn substituido(s: Seq<char>, de: Seq<char>, para: Seq<char>) -> Seq<char> {
    substituido_de(s, de, para, 0)
}

/// `t.substitua(de, para)`: troca todas as ocorrências de `de` por `para`.
pub fn substituir(t: &str, de: &str, para: &str) -> (r: String)
    ensures
        r@ == substituido(t@, de@, para@),
{
    let cs = caracteres(t);
    let ds = caracteres(de);
    let n = cs.len();
    let m = ds.len();
    let mut r = String::new();
    let mut i: usize = 0;
    assert(r@ + substituido_de(t@, de@, para@, 0) =~= substituido(t@, de@, para@));
    while i < n
        invariant
            cs@ == t@,
            ds@ == de@,
            n == cs@.len(),
            m == ds@.len(),
            i <= n,
            r@ + substituido_de(t@, de@, para@, i as int) == substituido(t@, de@, para@),
        decreases n - i,
    {
        let ghost r_antes = r@;
        if m == 0 {
            juntar(&mut r, para);
            empurrar(&mut r, cs[i]);
            assert(r@ + substituido_de(t@, de@, para@, i + 1) =~= r_antes + substituido_de(
                t@,
                de@,
                para@,
                i as int,
            ));
            i = i + 1;
        } else if ocorre(&cs, &ds, i) {
            juntar(&mut r, para);
            assert(r@ + substituido_de(t@, de@, para@, i + m) =~= r_antes + substituido_de(
                t@,
                de@,
                para@,
                i as int,
            ));
            i = i + m;
        } else {
            empurrar(&mut r, cs[i]);
            assert(r@ + substituido_de(t@, de@, para@, i + 1) =~= r_antes + substituido_de(
                t@,
                de@,
                para@,
                i as int,
            ));
            i = i + 1;
        }
    }
    if m == 0 {
        juntar(&mut r, para);
    }
    assert(r@ =~= substituido(t@, de@, para@));
    r
}

// ---- indiceDe, comecaCom, terminaCom ----

/// `t.indiceDe(sub)`: a primeira posição em que `sub` aparece, ou `None` se
/// não aparece (a kaju mostra -1). Um `sub` vazio aparece na posição 0.
pub fn indice_de(t: &str, sub: &str) -> (r: Option<usize>)
    ensures
        r matches Some(i) ==> ocorre_em(t@, sub@, i as int) && forall|j: int|
            0 <= j < i ==> !ocorre_em(t@, sub@, j),
        r is None ==> forall|j: int| !ocorre_em(t@, sub@, j),
{
    let cs = caracteres(t);
    let ps = caracteres(sub);
    let n = cs.len();
    let m = ps.len();
    if m > n {
        return None;
    }
    let mut i: usize = 0;
    while i <= n - m
        invariant
            cs@ == t@,
            ps@ == sub@,
            n == cs@.len(),
            m == ps@.len(),
            m <= n,
            i <= n - m + 1,
            n <= isize::MAX,
            forall|j: int| 0 <= j < i ==> !ocorre_em(t@, sub@, j),
        decreases n - m + 1 - i,
    {
        if ocorre(&cs, &ps, i) {
            return Some(i);
        }
        i = i + 1;
    }
    None
}

/// `t.comecaCom(p)`: se `p` é um prefixo de `t`.
pub fn comeca_com(t: &str, p: &str) -> (r: bool)
    ensures
        r == ocorre_em(t@, p@, 0),
{
    let cs = caracteres(t);
    let ps = caracteres(p);
    ocorre(&cs, &ps, 0)
}

/// `t.terminaCom(p)`: se `p` é um sufixo de `t`.
pub fn termina_com(t: &str, p: &str) -> (r: bool)
    ensures
        r == ocorre_em(t@, p@, t@.len() - p@.len()),
{
    let cs = caracteres(t);
    let ps = caracteres(p);
    if ps.len() > cs.len() {
        return false;
    }
    ocorre(&cs, &ps, cs.len() - ps.len())
}

// ---- repita, fatie ----

/// `s` repetido `n` vezes.
pub open spec fn repetido(s: Seq<char>, n: nat) -> Seq<char>
    decreases n,
{
    if n == 0 {
        Seq::empty()
    } else {
        repetido(s, (n - 1) as nat) + s
    }
}

/// `t.repita(n)`: o texto repetido `n` vezes.
pub fn repetir(t: &str, n: usize) -> (r: String)
    ensures
        r@ == repetido(t@, n as nat),
{
    let mut r = String::new();
    let mut k: usize = 0;
    while k < n
        invariant
            k <= n,
            r@ == repetido(t@, k as nat),
        decreases n - k,
    {
        juntar(&mut r, t);
        k = k + 1;
    }
    r
}

/// `t.fatie(ini, fim)`: os caracteres das posições `ini` até antes de `fim`,
/// ou `None` se o trecho não cabe no texto (`ini > fim` ou `fim` além do fim).
pub fn fatiar(t: &str, ini: usize, fim: usize) -> (r: Option<String>)
    ensures
        r is None <==> (ini > fim || fim > t@.len()),
        r matches Some(f) ==> f@ == t@.subrange(ini as int, fim as int),
{
    let cs = caracteres(t);
    if ini > fim || fim > cs.len() {
        return None;
    }
    let mut r = String::new();
    let mut k: usize = ini;
    while k < fim
        invariant
            cs@ == t@,
            ini <= k <= fim,
            fim <= cs@.len(),
            r@ == t@.subrange(ini as int, k as int),
        decreases fim - k,
    {
        empurrar(&mut r, cs[k]);
        assert(t@.subrange(ini as int, k + 1) =~= t@.subrange(ini as int, k as int).push(t@[k as int]));
        k = k + 1;
    }
    Some(r)
}

proof fn lema_substituir_por_pedacos(s: Seq<char>, de: Seq<char>, para: Seq<char>, i: int, atual: Seq<char>)
    requires
        de.len() > 0,
        0 <= i <= s.len(),
    ensures
        juntado(pedacos(s, de, i, atual), para) == atual + substituido_de(s, de, para, i),
    decreases s.len() - i,
{
    if i >= s.len() {
        assert(atual + Seq::<char>::empty() =~= atual);
    } else if ocorre_em(s, de, i) {
        let resto = pedacos(s, de, i + de.len(), Seq::empty());
        lema_substituir_por_pedacos(s, de, para, i + de.len(), Seq::empty());
        lema_juntar_pedacos(s, de, i + de.len(), Seq::empty());
        lema_juntado_na_frente(atual, resto, para);
        assert(Seq::<char>::empty() + substituido_de(s, de, para, i + de.len()) =~= substituido_de(
            s,
            de,
            para,
            i + de.len(),
        ));
        assert(atual + para + substituido_de(s, de, para, i + de.len()) =~= atual + (para + substituido_de(
            s,
            de,
            para,
            i + de.len(),
        )));
    } else {
        lema_substituir_por_pedacos(s, de, para, i + 1, atual.push(s[i]));
        assert(atual.push(s[i]) + substituido_de(s, de, para, i + 1) =~= atual + (seq![s[i]] + substituido_de(
            s,
            de,
            para,
            i + 1,
        )));
    }
}

/// Substituir `de` (não vazio) por `para` é o mesmo que dividir o texto em
/// `de` e juntar os pedaços com `para`: as ocorrências trocadas são
/// exatamente os cortes de `divida`, e o resto do texto fica como estava.
pub proof fn lei_substituir_e_dividir_juntar(s: Seq<char>, de: Seq<char>, para: Seq<char>)
    requires
        de.len() > 0,
    ensures
        substituido(s, de, para) == juntado(dividido(s, de), para),
{
    lema_substituir_por_pedacos(s, de, para, 0, Seq::empty());
    assert(Seq::<char>::empty() + substituido_de(s, de, para, 0) =~= substituido_de(s, de, para, 0));
}

/// Trocar um trecho por ele mesmo não muda o texto.
pub proof fn lei_substituir_por_si_mesmo(s: Seq<char>, de: Seq<char>)
    requires
        de.len() > 0,
    ensures
        substituido(s, de, de) == s,
{
    lei_substituir_e_dividir_juntar(s, de, de);
    lei_juntar_desfaz_dividir(s, de);
}

/// Repetir `n` vezes dá um texto `n` vezes mais longo, e repetir `a + b`
/// vezes é repetir `a` vezes e depois `b` vezes.
pub proof fn lei_repetir(s: Seq<char>, a: nat, b: nat)
    ensures
        repetido(s, a).len() == a * s.len(),
        repetido(s, a + b) == repetido(s, a) + repetido(s, b),
    decreases b,
{
    lema_repetido_tamanho(s, a);
    if b == 0 {
        assert(repetido(s, a) + Seq::<char>::empty() =~= repetido(s, a));
    } else {
        lei_repetir(s, a, (b - 1) as nat);
        assert((a + b - 1) as nat == a + (b - 1) as nat);
        assert(repetido(s, a + b) == repetido(s, (a + b - 1) as nat) + s);
        assert(repetido(s, a) + repetido(s, (b - 1) as nat) + s =~= repetido(s, a) + (repetido(
            s,
            (b - 1) as nat,
        ) + s));
    }
}

proof fn lema_repetido_tamanho(s: Seq<char>, n: nat)
    ensures
        repetido(s, n).len() == n * s.len(),
    decreases n,
{
    if n == 0 {
        assert(n * s.len() == 0) by (nonlinear_arith)
            requires
                n == 0,
        ;
    } else {
        let m = (n - 1) as nat;
        lema_repetido_tamanho(s, m);
        assert(repetido(s, n).len() == repetido(s, m).len() + s.len());
        assert(m * s.len() + s.len() == n * s.len()) by (nonlinear_arith)
            requires
                m + 1 == n,
        ;
    }
}

} // verus!
