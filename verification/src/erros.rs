//! Diagnósticos ricos em português: a estrutura do erro separada da sua
//! renderização.

use vstd::prelude::*;
use vstd::string::*;
use crate::token::Span;
use crate::texto::{caracteres, decimal, empurrar, escrever_numero, juntar};

verus! {

/// Um diagnóstico de erro pronto para ser exibido ao usuário.
#[derive(Clone, Debug)]
pub struct Diagnostico {
    /// Código do erro, ex.: "K001".
    pub codigo: String,
    /// Mensagem curta do cabeçalho.
    pub mensagem: String,
    /// Onde o erro acontece.
    pub span: Span,
    /// Texto exibido junto ao `^^^^`.
    pub rotulo: Option<String>,
    /// Explicação do porquê (opcional).
    pub nota: Option<String>,
    /// Sugestão de correção (opcional).
    pub ajuda: Option<String>,
}

impl Diagnostico {
    pub fn novo(codigo: &str, mensagem: String, span: Span) -> (d: Diagnostico)
        ensures
            d.codigo@ == codigo@,
            d.mensagem == mensagem,
            d.span == span,
            d.rotulo is None,
            d.nota is None,
            d.ajuda is None,
    {
        Diagnostico {
            codigo: String::from_str(codigo),
            mensagem,
            span,
            rotulo: None,
            nota: None,
            ajuda: None,
        }
    }

    pub fn com_rotulo(self, rotulo: String) -> (d: Diagnostico)
        ensures
            d == (Diagnostico { rotulo: Some(rotulo), ..self }),
    {
        let mut d = self;
        d.rotulo = Some(rotulo);
        d
    }

    pub fn com_nota(self, nota: String) -> (d: Diagnostico)
        ensures
            d == (Diagnostico { nota: Some(nota), ..self }),
    {
        let mut d = self;
        d.nota = Some(nota);
        d
    }

    pub fn com_ajuda(self, ajuda: String) -> (d: Diagnostico)
        ensures
            d == (Diagnostico { ajuda: Some(ajuda), ..self }),
    {
        let mut d = self;
        d.ajuda = Some(ajuda);
        d
    }
}

} // verus!

verus! {


// ---- Renderização ----

/// Os trechos de `s` separados por `'\n'` (sempre há pelo menos um: o último,
/// possivelmente vazio).
pub open spec fn quebrar(s: Seq<char>) -> Seq<Seq<char>>
    decreases s.len(),
{
    if s.len() == 0 {
        seq![Seq::empty()]
    } else {
        let q = quebrar(s.drop_last());
        if s.last() == '\n' {
            q.push(Seq::empty())
        } else {
            q.update(q.len() - 1, q.last().push(s.last()))
        }
    }
}

/// Quantas linhas `str::lines` encontra em `s`: um `'\n'` final não abre uma
/// linha nova.
pub open spec fn num_linhas(s: Seq<char>) -> int {
    let q = quebrar(s);
    if q.last().len() == 0 {
        q.len() - 1
    } else {
        q.len() as int
    }
}

/// A linha `k` (a partir de 0) de `s`, como `str::lines` a dá: sem o `'\n'` e
/// sem um `'\r'` que venha logo antes dele.
pub open spec fn linha_do_texto(s: Seq<char>, k: int) -> Seq<char> {
    let q = quebrar(s);
    let trecho = q[k];
    if k < q.len() - 1 && trecho.len() > 0 && trecho.last() == '\r' {
        trecho.drop_last()
    } else {
        trecho
    }
}

/// `n` cópias do caractere `c`.
pub open spec fn repete(c: char, n: nat) -> Seq<char> {
    Seq::new(n, |_i: int| c)
}

/// O recuo da margem: tantos espaços quantos dígitos tem o número da linha.
pub open spec fn recuo(d: Diagnostico) -> Seq<char> {
    repete(' ', decimal(d.span.linha as nat).len())
}

/// Cabeçalho e localização: `erro[Kxxx]: mensagem` e `--> arquivo:linha:coluna`.
pub open spec fn cabecalho(d: Diagnostico, arquivo: Seq<char>) -> Seq<char> {
    "erro["@ + d.codigo@ + "]: "@ + d.mensagem@ + "\n"@ + recuo(d) + "--> "@ + arquivo + ":"@
        + decimal(d.span.linha as nat) + ":"@ + decimal(d.span.coluna as nat) + "\n"@ + recuo(d)
        + " |\n"@
}

/// O texto do rótulo, precedido de um espaço, se houver.
pub open spec fn texto_rotulo(d: Diagnostico) -> Seq<char> {
    match d.rotulo {
        Some(r) => " "@ + r@,
        None => Seq::empty(),
    }
}

/// A linha do código-fonte e, abaixo dela, os `^^^^` sob a coluna do erro;
/// vazio quando a linha não existe no fonte.
pub open spec fn trecho_fonte(d: Diagnostico, fonte: Seq<char>) -> Seq<char> {
    let linha = d.span.linha as int;
    if 1 <= linha <= num_linhas(fonte) {
        let espacos = if d.span.coluna >= 1 { (d.span.coluna - 1) as nat } else { 0nat };
        let setas = if d.span.comprimento >= 1 { d.span.comprimento as nat } else { 1nat };
        decimal(linha as nat) + " | "@ + linha_do_texto(fonte, linha - 1) + "\n"@ + recuo(d)
            + " | "@ + repete(' ', espacos) + repete('^', setas) + texto_rotulo(d) + "\n"@
    } else {
        Seq::empty()
    }
}

/// A margem final e as linhas de nota e de ajuda, se houver.
pub open spec fn rodape(d: Diagnostico) -> Seq<char> {
    recuo(d) + " |\n"@ + match d.nota {
        Some(n) => "nota: "@ + n@ + "\n"@,
        None => Seq::empty(),
    } + match d.ajuda {
        Some(a) => "ajuda: "@ + a@ + "\n"@,
        None => Seq::empty(),
    }
}

/// O diagnóstico renderizado para o usuário.
pub open spec fn renderizado(d: Diagnostico, arquivo: Seq<char>, fonte: Seq<char>) -> Seq<char> {
    cabecalho(d, arquivo) + trecho_fonte(d, fonte) + rodape(d)
}

proof fn lema_quebrar_nao_vazio(s: Seq<char>)
    ensures
        quebrar(s).len() >= 1,
    decreases s.len(),
{
    if s.len() > 0 {
        lema_quebrar_nao_vazio(s.drop_last());
    }
}

/// A linha `k` (a partir de 0) de `fonte`, como `str::lines` a dá, se existir.
fn linha_do_fonte(fonte: &str, k: usize) -> (r: Option<Vec<char>>)
    ensures
        r is Some <==> k < num_linhas(fonte@),
        r matches Some(l) ==> l@ == linha_do_texto(fonte@, k as int),
{
    let cs = caracteres(fonte);
    let n = cs.len();
    let mut num: usize = 0;
    let mut tam_ultimo: usize = 0;
    let mut alvo: Vec<char> = Vec::new();
    let mut i: usize = 0;
    proof {
        assert(cs@.take(0) =~= Seq::<char>::empty());
    }
    while i < n
        invariant
            n == cs@.len(),
            n <= isize::MAX,
            i <= n,
            num <= i,
            tam_ultimo <= i,
            quebrar(cs@.take(i as int)).len() == num + 1,
            quebrar(cs@.take(i as int)).last().len() == tam_ultimo,
            k <= num ==> alvo@ == quebrar(cs@.take(i as int))[k as int],
            k > num ==> alvo@.len() == 0,
        decreases n - i,
    {
        let c = cs[i];
        proof {
            let t = cs@.take(i + 1);
            assert(t.drop_last() =~= cs@.take(i as int));
            assert(t.last() == c);
            lema_quebrar_nao_vazio(cs@.take(i as int));
        }
        if c == '\n' {
            num = num + 1;
            tam_ultimo = 0;
        } else {
            if k == num {
                alvo.push(c);
            }
            tam_ultimo = tam_ultimo + 1;
        }
        i = i + 1;
    }
    proof {
        assert(cs@.take(n as int) =~= cs@);
    }
    let total = if tam_ultimo == 0 {
        num
    } else {
        num + 1
    };
    if k >= total {
        return None;
    }
    if k < num && alvo.len() > 0 && alvo[alvo.len() - 1] == '\r' {
        alvo.pop();
    }
    Some(alvo)
}

/// Acrescenta `n` cópias de `c` ao texto.
fn repetir(s: &mut String, c: char, n: usize)
    ensures
        final(s)@ == old(s)@ + repete(c, n as nat),
{
    let mut i: usize = 0;
    while i < n
        invariant
            i <= n,
            s@ == old(s)@ + repete(c, i as nat),
        decreases n - i,
    {
        empurrar(s, c);
        i = i + 1;
        assert(s@ =~= old(s)@ + repete(c, i as nat));
    }
}

/// Acrescenta os caracteres dados ao texto.
fn juntar_caracteres(s: &mut String, cs: &Vec<char>)
    ensures
        final(s)@ == old(s)@ + cs@,
{
    let mut i: usize = 0;
    while i < cs.len()
        invariant
            i <= cs@.len(),
            s@ == old(s)@ + cs@.take(i as int),
        decreases cs@.len() - i,
    {
        empurrar(s, cs[i]);
        i = i + 1;
        assert(s@ =~= old(s)@ + cs@.take(i as int));
    }
    assert(cs@.take(cs@.len() as int) =~= cs@);
}

/// O número de dígitos decimais de `n`.
fn largura_decimal(n: usize) -> (r: usize)
    ensures
        r == decimal(n as nat).len(),
{
    let t = crate::texto::numero_para_texto(n);
    t.unicode_len()
}

impl Diagnostico {
    /// O cabeçalho e a localização do diagnóstico.
    fn texto_cabecalho(&self, arquivo: &str) -> (r: String)
        ensures
            r@ == cabecalho(*self, arquivo@),
    {
        let largura = largura_decimal(self.span.linha);
        let mut saida = String::new();
        juntar(&mut saida, "erro[");
        assert(saida@ =~= "erro["@);
        juntar(&mut saida, self.codigo.as_str());
        juntar(&mut saida, "]: ");
        juntar(&mut saida, self.mensagem.as_str());
        juntar(&mut saida, "\n");
        repetir(&mut saida, ' ', largura);
        juntar(&mut saida, "--> ");
        juntar(&mut saida, arquivo);
        juntar(&mut saida, ":");
        escrever_numero(&mut saida, self.span.linha);
        juntar(&mut saida, ":");
        escrever_numero(&mut saida, self.span.coluna);
        juntar(&mut saida, "\n");
        repetir(&mut saida, ' ', largura);
        juntar(&mut saida, " |\n");
        saida
    }

    /// A linha do código-fonte com os `^^^^` sob a coluna, se a linha existir.
    fn texto_trecho(&self, fonte: &str) -> (r: String)
        ensures
            r@ == trecho_fonte(*self, fonte@),
    {
        let mut saida = String::new();
        if self.span.linha < 1 {
            return saida;
        }
        let texto_linha = match linha_do_fonte(fonte, self.span.linha - 1) {
            Some(t) => t,
            None => {
                return saida;
            },
        };
        let largura = largura_decimal(self.span.linha);
        escrever_numero(&mut saida, self.span.linha);
        assert(saida@ =~= decimal(self.span.linha as nat));
        juntar(&mut saida, " | ");
        juntar_caracteres(&mut saida, &texto_linha);
        juntar(&mut saida, "\n");
        repetir(&mut saida, ' ', largura);
        juntar(&mut saida, " | ");
        let espacos = if self.span.coluna >= 1 {
            self.span.coluna - 1
        } else {
            0
        };
        repetir(&mut saida, ' ', espacos);
        let setas = if self.span.comprimento >= 1 {
            self.span.comprimento
        } else {
            1
        };
        repetir(&mut saida, '^', setas);
        let ghost antes_rotulo = saida@;
        match &self.rotulo {
            Some(r) => {
                juntar(&mut saida, " ");
                juntar(&mut saida, r.as_str());
                assert(saida@ =~= antes_rotulo + texto_rotulo(*self));
            },
            None => {
                assert(saida@ =~= antes_rotulo + texto_rotulo(*self));
            },
        }
        juntar(&mut saida, "\n");
        saida
    }

    /// A margem final e as linhas de nota e de ajuda.
    fn texto_rodape(&self) -> (r: String)
        ensures
            r@ == rodape(*self),
    {
        let largura = largura_decimal(self.span.linha);
        let mut saida = String::new();
        repetir(&mut saida, ' ', largura);
        assert(saida@ =~= recuo(*self));
        juntar(&mut saida, " |\n");
        let ghost antes_nota = saida@;
        match &self.nota {
            Some(nota) => {
                juntar(&mut saida, "nota: ");
                juntar(&mut saida, nota.as_str());
                juntar(&mut saida, "\n");
                assert(saida@ =~= antes_nota + ("nota: "@ + nota@ + "\n"@));
            },
            None => {
                assert(saida@ =~= antes_nota + Seq::<char>::empty());
            },
        }
        let ghost antes_ajuda = saida@;
        match &self.ajuda {
            Some(ajuda) => {
                juntar(&mut saida, "ajuda: ");
                juntar(&mut saida, ajuda.as_str());
                juntar(&mut saida, "\n");
                assert(saida@ =~= antes_ajuda + ("ajuda: "@ + ajuda@ + "\n"@));
            },
            None => {
                assert(saida@ =~= antes_ajuda + Seq::<char>::empty());
            },
        }
        saida
    }

    /// Renderiza o diagnóstico como texto, usando o código-fonte para exibir a linha.
    pub fn render(&self, arquivo: &str, fonte: &str) -> (r: String)
        ensures
            r@ == renderizado(*self, arquivo@, fonte@),
    {
        let mut saida = self.texto_cabecalho(arquivo);
        let trecho = self.texto_trecho(fonte);
        juntar(&mut saida, trecho.as_str());
        let fim = self.texto_rodape();
        juntar(&mut saida, fim.as_str());
        saida
    }
}

// ---- Distância de edição ----

pub open spec fn minimo3(a: nat, b: nat, c: nat) -> nat {
    if a <= b && a <= c {
        a
    } else if b <= c {
        b
    } else {
        c
    }
}

/// Distância de edição de Levenshtein: o menor número de inserções, remoções
/// e trocas de um caractere que levam `a` a `b`.
pub open spec fn levenshtein(a: Seq<char>, b: Seq<char>) -> nat
    decreases a.len() + b.len(),
{
    if a.len() == 0 {
        b.len()
    } else if b.len() == 0 {
        a.len()
    } else {
        minimo3(
            levenshtein(a.drop_last(), b) + 1,
            levenshtein(a, b.drop_last()) + 1,
            levenshtein(a.drop_last(), b.drop_last()) + (if a.last() == b.last() {
                0nat
            } else {
                1nat
            }),
        )
    }
}

proof fn lema_levenshtein_limitado(a: Seq<char>, b: Seq<char>)
    ensures
        levenshtein(a, b) <= a.len() + b.len(),
    decreases a.len() + b.len(),
{
    if a.len() > 0 && b.len() > 0 {
        lema_levenshtein_limitado(a.drop_last(), b);
    }
}

/// A distância de edição é simétrica: levar `a` a `b` custa o mesmo que levar
/// `b` a `a`.
pub proof fn lei_distancia_simetrica(a: Seq<char>, b: Seq<char>)
    ensures
        levenshtein(a, b) == levenshtein(b, a),
    decreases a.len() + b.len(),
{
    if a.len() > 0 && b.len() > 0 {
        lei_distancia_simetrica(a.drop_last(), b);
        lei_distancia_simetrica(a, b.drop_last());
        lei_distancia_simetrica(a.drop_last(), b.drop_last());
    }
}

/// A distância de edição é zero exatamente entre textos iguais.
pub proof fn lei_distancia_zero(a: Seq<char>, b: Seq<char>)
    ensures
        levenshtein(a, b) == 0 <==> a == b,
    decreases a.len() + b.len(),
{
    if a.len() > 0 && b.len() > 0 {
        lei_distancia_zero(a.drop_last(), b.drop_last());
        if a == b {
            assert(a.drop_last() == b.drop_last());
        }
        if levenshtein(a, b) == 0 {
            assert(a =~= a.drop_last().push(a.last()));
            assert(b =~= b.drop_last().push(b.last()));
        }
    } else if a.len() == 0 && b.len() > 0 {
        assert(a != b);
    } else if a.len() > 0 && b.len() == 0 {
        assert(a != b);
    } else {
        assert(a =~= b);
    }
}

/// Distância de edição de Levenshtein entre dois textos — usada para sugerir
/// "você quis dizer X?".
pub fn distancia_edicao(a: &str, b: &str) -> (d: usize)
    ensures
        d == levenshtein(a@, b@),
{
    let a = caracteres(a);
    let b = caracteres(b);
    distancia_caracteres(&a, &b)
}

fn distancia_caracteres(a: &Vec<char>, b: &Vec<char>) -> (d: usize)
    requires
        a@.len() <= isize::MAX,
        b@.len() <= isize::MAX,
    ensures
        d == levenshtein(a@, b@),
{
    let n = b.len();
    let mut anterior: Vec<usize> = Vec::new();
    let mut j: usize = 0;
    while j <= n
        invariant
            n == b@.len(),
            n <= isize::MAX,
            j <= n + 1,
            anterior@.len() == j,
            forall|k: int| 0 <= k < j ==> anterior@[k] == levenshtein(seq![], b@.take(k)),
        decreases n + 1 - j,
    {
        anterior.push(j);
        j = j + 1;
    }
    let mut i: usize = 1;
    while i <= a.len()
        invariant
            n == b@.len(),
            n <= isize::MAX,
            a@.len() <= isize::MAX,
            1 <= i <= a@.len() + 1,
            anterior@.len() == n + 1,
            forall|k: int|
                0 <= k <= n ==> anterior@[k] == levenshtein(a@.take(i - 1), b@.take(k)),
        decreases a@.len() + 1 - i,
    {
        let mut atual: Vec<usize> = Vec::new();
        assert(a@.take(i as int).len() == i);
        atual.push(i);
        proof {
            assert(b@.take(0).len() == 0);
        }
        let mut j: usize = 1;
        while j <= n
            invariant
                n == b@.len(),
                n <= isize::MAX,
                a@.len() <= isize::MAX,
                1 <= i <= a@.len(),
                1 <= j <= n + 1,
                anterior@.len() == n + 1,
                atual@.len() == j,
                forall|k: int|
                    0 <= k <= n ==> anterior@[k] == levenshtein(a@.take(i - 1), b@.take(k)),
                forall|k: int| 0 <= k < j ==> atual@[k] == levenshtein(a@.take(i as int), b@.take(k)),
            decreases n + 1 - j,
        {
            let custo: usize = if a[i - 1] == b[j - 1] {
                0
            } else {
                1
            };
            proof {
                let x = a@.take(i as int);
                let y = b@.take(j as int);
                assert(x.drop_last() =~= a@.take(i - 1));
                assert(y.drop_last() =~= b@.take(j - 1));
                assert(x.last() == a@[i - 1]);
                assert(y.last() == b@[j - 1]);
                lema_levenshtein_limitado(a@.take(i - 1), b@.take(j as int));
                lema_levenshtein_limitado(x, b@.take(j - 1));
                lema_levenshtein_limitado(a@.take(i - 1), b@.take(j - 1));
            }
            let remover = anterior[j] + 1;
            let inserir = atual[j - 1] + 1;
            let trocar = anterior[j - 1] + custo;
            let m = if remover <= inserir && remover <= trocar {
                remover
            } else if inserir <= trocar {
                inserir
            } else {
                trocar
            };
            atual.push(m);
            j = j + 1;
        }
        anterior = atual;
        i = i + 1;
    }
    proof {
        assert(a@.take(a@.len() as int) =~= a@);
        assert(b@.take(n as int) =~= b@);
    }
    anterior[n]
}

// ---- Sugestão de nomes ----

/// O limite de distância para uma sugestão: metade do tamanho do alvo, mas
/// pelo menos 2.
pub open spec fn limite_sugestao(alvo: Seq<char>) -> nat {
    if alvo.len() / 2 >= 2 {
        alvo.len() / 2
    } else {
        2
    }
}

/// Um candidato razoavelmente próximo do alvo (mas diferente dele).
pub open spec fn elegivel(alvo: Seq<char>, c: Seq<char>) -> bool {
    0 < levenshtein(alvo, c) <= limite_sugestao(alvo)
}

/// O índice sugerido: o primeiro candidato elegível de menor distância.
pub open spec fn eh_sugestao(alvo: Seq<char>, cs: Seq<String>, k: int) -> bool {
    &&& 0 <= k < cs.len()
    &&& elegivel(alvo, cs[k]@)
    &&& forall|j: int|
        0 <= j < cs.len() && elegivel(alvo, #[trigger] cs[j]@) ==> levenshtein(alvo, cs[k]@)
            <= levenshtein(alvo, cs[j]@)
    &&& forall|j: int|
        0 <= j < k && elegivel(alvo, #[trigger] cs[j]@) ==> levenshtein(alvo, cs[k]@)
            < levenshtein(alvo, cs[j]@)
}

/// Uma sugestão nunca é o próprio nome procurado, e fica a no máximo
/// `limite_sugestao` edições dele.
pub proof fn lei_sugestao_diferente(alvo: Seq<char>, cs: Seq<String>, k: int)
    requires
        eh_sugestao(alvo, cs, k),
    ensures
        cs[k]@ != alvo,
        levenshtein(alvo, cs[k]@) <= limite_sugestao(alvo),
{
    lei_distancia_zero(alvo, cs[k]@);
}

/// Dado um nome desconhecido e os nomes disponíveis, sugere o mais próximo
/// (o primeiro, em caso de empate), se algum estiver razoavelmente próximo.
pub fn sugerir_nome<'a>(alvo: &str, candidatos: &'a [String]) -> (r: Option<&'a String>)
    ensures
        r is None <==> forall|j: int|
            0 <= j < candidatos@.len() ==> !elegivel(alvo@, #[trigger] candidatos@[j]@),
        r matches Some(c) ==> exists|k: int|
            eh_sugestao(alvo@, candidatos@, k) && *c == #[trigger] candidatos@[k],
{
    let alvo_cs = caracteres(alvo);
    let metade = alvo_cs.len() / 2;
    let limite = if metade >= 2 {
        metade
    } else {
        2
    };
    let mut melhor: Option<usize> = None;
    let mut melhor_d: usize = 0;
    let mut i: usize = 0;
    while i < candidatos.len()
        invariant
            i <= candidatos@.len(),
            alvo_cs@ == alvo@,
            alvo_cs@.len() <= isize::MAX,
            limite == limite_sugestao(alvo@),
            melhor is None ==> forall|j: int|
                0 <= j < i ==> !elegivel(alvo@, #[trigger] candidatos@[j]@),
            melhor matches Some(k) ==> {
                &&& k < i
                &&& elegivel(alvo@, candidatos@[k as int]@)
                &&& melhor_d == levenshtein(alvo@, candidatos@[k as int]@)
                &&& forall|j: int|
                    0 <= j < i && elegivel(alvo@, #[trigger] candidatos@[j]@) ==> melhor_d
                        <= levenshtein(alvo@, candidatos@[j]@)
                &&& forall|j: int|
                    0 <= j < k && elegivel(alvo@, #[trigger] candidatos@[j]@) ==> melhor_d
                        < levenshtein(alvo@, candidatos@[j]@)
            },
        decreases candidatos@.len() - i,
    {
        let c = caracteres(candidatos[i].as_str());
        let d = distancia_caracteres(&alvo_cs, &c);
        if d > 0 && d <= limite {
            match melhor {
                None => {
                    melhor = Some(i);
                    melhor_d = d;
                },
                Some(_) => {
                    if d < melhor_d {
                        melhor = Some(i);
                        melhor_d = d;
                    }
                },
            }
        }
        i = i + 1;
    }
    match melhor {
        None => None,
        Some(k) => {
            assert(eh_sugestao(alvo@, candidatos@, k as int));
            Some(&candidatos[k])
        },
    }
}

} // verus!
