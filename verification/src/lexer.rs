//! Analisador léxico: transforma o código-fonte em uma sequência de tokens.

use vstd::prelude::*;
use vstd::slice::slice_subrange;
use crate::erros::Diagnostico;
use crate::texto::{
    alfabetico, alfanumerico, caracteres, digito, eh_alfabetico, eh_alfanumerico, eh_digito,
    empurrar, so_digitos, texto, texto_de, valor_digitos,
};
use crate::token::{categoria, palavra_chave_de, palavra_chave_spec, Pedaco, Span, TipoToken, Token};

verus! {

/// O caractere na posição `i`, ou `'\0'` fora do texto.
pub open spec fn car(s: Seq<char>, i: int) -> char {
    if 0 <= i < s.len() {
        s[i]
    } else {
        '\0'
    }
}

/// Espaço em branco ignorado entre tokens.
pub open spec fn eh_espaco(c: char) -> bool {
    c == ' ' || c == '\t' || c == '\r' || c == '\n'
}

/// Um identificador: começa por letra ou `_`, seguido de letras, dígitos ou `_`.
pub open spec fn identificador_valido(s: Seq<char>) -> bool {
    &&& s.len() > 0
    &&& (eh_alfabetico(s[0]) || s[0] == '_')
    &&& forall|i: int| 0 <= i < s.len() ==> (eh_alfanumerico(#[trigger] s[i]) || s[i] == '_')
}

/// Um literal decimal com ponto: dígitos, `.`, dígitos.
pub open spec fn decimal_com_ponto(s: Seq<char>) -> bool {
    exists|k: int|
        0 < k < s.len() - 1 && #[trigger] s[k] == '.' && so_digitos(s.take(k)) && so_digitos(
            s.skip(k + 1),
        )
}

/// Os símbolos da linguagem: o primeiro caractere, a categoria produzida e
/// quantos caracteres o símbolo ocupa.
pub open spec fn simbolo_spec(c: char, t: TipoToken, comprimento: nat) -> bool {
    if c == '+' {
        (t == TipoToken::MaisIgual && comprimento == 2) || (t == TipoToken::Mais && comprimento == 1)
    } else if c == '-' {
        (t == TipoToken::MenosIgual && comprimento == 2) || (t == TipoToken::Menos && comprimento
            == 1)
    } else if c == '*' {
        (t == TipoToken::EstrelaIgual && comprimento == 2) || (t == TipoToken::Estrela
            && comprimento == 1)
    } else if c == '/' {
        (t == TipoToken::BarraIgual && comprimento == 2) || (t == TipoToken::Barra && comprimento
            == 1)
    } else if c == '%' {
        (t == TipoToken::PorcentoIgual && comprimento == 2) || (t == TipoToken::Porcento
            && comprimento == 1)
    } else if c == '&' {
        t == TipoToken::EBit && comprimento == 1
    } else if c == '|' {
        t == TipoToken::OuBit && comprimento == 1
    } else if c == '^' {
        t == TipoToken::OuExclusivo && comprimento == 1
    } else if c == '~' {
        t == TipoToken::Til && comprimento == 1
    } else if c == '(' {
        t == TipoToken::ParenEsq && comprimento == 1
    } else if c == ')' {
        t == TipoToken::ParenDir && comprimento == 1
    } else if c == '{' {
        t == TipoToken::ChaveEsq && comprimento == 1
    } else if c == '}' {
        t == TipoToken::ChaveDir && comprimento == 1
    } else if c == '[' {
        t == TipoToken::ColcheteEsq && comprimento == 1
    } else if c == ']' {
        t == TipoToken::ColcheteDir && comprimento == 1
    } else if c == ',' {
        t == TipoToken::Virgula && comprimento == 1
    } else if c == ':' {
        t == TipoToken::DoisPontos && comprimento == 1
    } else if c == '?' {
        t == TipoToken::Interrogacao && comprimento == 1
    } else if c == '.' {
        (t == TipoToken::Reticencias && comprimento == 3) || (t == TipoToken::Ponto && comprimento
            == 1)
    } else if c == '=' {
        (t == TipoToken::IgualIgual && comprimento == 2) || (t == TipoToken::Igual && comprimento
            == 1)
    } else if c == '!' {
        t == TipoToken::Diferente && comprimento == 2
    } else if c == '<' {
        (t == TipoToken::MenorIgual && comprimento == 2) || (t == TipoToken::DeslocaEsq
            && comprimento == 2) || (t == TipoToken::Menor && comprimento == 1)
    } else if c == '>' {
        (t == TipoToken::MaiorIgual && comprimento == 2) || (t == TipoToken::DeslocaDir
            && comprimento == 2) || (t == TipoToken::Maior && comprimento == 1)
    } else {
        false
    }
}

/// Todo trecho de código de um texto interpolado tem menos de `n` caracteres.
pub open spec fn pedacos_limitados(ps: Seq<Pedaco>, n: nat) -> bool {
    forall|i: int| 0 <= i < ps.len() && #[trigger] ps[i] is Cod ==> ps[i]->Cod_0@.len() < n
}

/// Um token produzido a partir de um código-fonte de `n` caracteres: o seu
/// lexema, a sua categoria e o seu conteúdo concordam entre si.
pub open spec fn token_bem_formado(t: Token, n: nat) -> bool {
    &&& t.span.linha >= 1
    &&& t.span.coluna >= 1
    &&& t.span.comprimento >= 1
    &&& match t.tipo {
        TipoToken::Identificador(nome) => {
            &&& nome@ == t.lexema@
            &&& identificador_valido(t.lexema@)
            &&& palavra_chave_spec(t.lexema@) is None
            &&& t.span.comprimento == t.lexema@.len()
        },
        TipoToken::Inteiro(v) => {
            &&& t.lexema@.len() > 0
            &&& so_digitos(t.lexema@)
            &&& valor_digitos(t.lexema@) == v
            &&& t.span.comprimento == t.lexema@.len()
        },
        TipoToken::Decimal(d) => {
            &&& d@ == t.lexema@
            &&& t.lexema@.len() > 0
            &&& (decimal_com_ponto(t.lexema@) || (so_digitos(t.lexema@) && valor_digitos(
                t.lexema@,
            ) > i64::MAX))
            &&& t.span.comprimento == t.lexema@.len()
        },
        TipoToken::Texto(c) => c@ == t.lexema@,
        TipoToken::TextoInterp(ps) => t.lexema@.len() == 0 && pedacos_limitados(ps@, n),
        TipoToken::FimDeArquivo => false,
        _ => if categoria(t.tipo) <= 43 {
            &&& identificador_valido(t.lexema@)
            &&& palavra_chave_spec(t.lexema@) == Some(t.tipo)
            &&& t.span.comprimento == t.lexema@.len()
        } else {
            &&& t.lexema@.len() == 1
            &&& simbolo_spec(t.lexema@[0], t.tipo, t.span.comprimento as nat)
        },
    }
}

/// Os códigos de erro léxico.
pub open spec fn codigo_lexico(c: Seq<char>) -> bool {
    c == "K101"@ || c == "K102"@ || c == "K103"@ || c == "K104"@
}

/// O resultado de `tokenizar` sobre um código-fonte de `n` caracteres: termina
/// com um único `FimDeArquivo`, e todos os demais tokens são bem formados.
pub open spec fn tokens_bem_formados(ts: Seq<Token>, n: nat) -> bool {
    &&& ts.len() >= 1
    &&& ts.last().tipo is FimDeArquivo
    &&& ts.last().lexema@.len() == 0
    &&& ts.last().span.comprimento == 1
    &&& ts.last().span.linha >= 1
    &&& ts.last().span.coluna >= 1
    &&& forall|i: int| 0 <= i < ts.len() - 1 ==> token_bem_formado(#[trigger] ts[i], n)
}

// ---- O que o léxico produz ----
//
// As funções abaixo descrevem, a partir de uma posição do código-fonte, o que
// cada parte do analisador léxico reconhece: onde terminam os espaços e
// comentários, qual é o próximo token e onde ele termina. `lexico` junta tudo:
// a sequência de tokens do código-fonte inteiro, ou o código do primeiro erro.

/// Um pedaço de texto interpolado, como valor matemático.
pub enum PedacoLexico {
    Lit(Seq<char>),
    Cod(Seq<char>),
}

/// O conteúdo de um token, como valor matemático: o tipo, para os tokens sem
/// conteúdo, e o conteúdo lido, para os demais.
pub enum Lexema {
    Simples(TipoToken),
    Inteiro(int),
    Decimal(Seq<char>),
    Texto(Seq<char>),
    Interp(Seq<PedacoLexico>),
    Ident(Seq<char>),
}

pub open spec fn descreve_pedaco(p: Pedaco) -> PedacoLexico {
    match p {
        Pedaco::Lit(s) => PedacoLexico::Lit(s@),
        Pedaco::Cod(s) => PedacoLexico::Cod(s@),
    }
}

pub open spec fn descreve_pedacos(ps: Seq<Pedaco>) -> Seq<PedacoLexico> {
    ps.map_values(|p: Pedaco| descreve_pedaco(p))
}

/// O conteúdo de um token produzido.
pub open spec fn descreve(t: TipoToken) -> Lexema {
    match t {
        TipoToken::Inteiro(i) => Lexema::Inteiro(i as int),
        TipoToken::Decimal(d) => Lexema::Decimal(d@),
        TipoToken::Texto(c) => Lexema::Texto(c@),
        TipoToken::TextoInterp(ps) => Lexema::Interp(descreve_pedacos(ps@)),
        TipoToken::Identificador(n) => Lexema::Ident(n@),
        outro => Lexema::Simples(outro),
    }
}

/// Um token como valor matemático: o conteúdo e a posição no código-fonte.
pub struct TokenLexico {
    pub lexema: Lexema,
    pub span: Span,
}

/// Um erro léxico como valor matemático: o código e onde ele é apontado.
pub struct ErroLexico {
    pub codigo: Seq<char>,
    pub span: Span,
}

/// O trecho de `comprimento` caracteres que começa na posição `p`.
pub open spec fn span_em(s: Seq<char>, p: int, comprimento: int) -> Span {
    Span {
        linha: linha_em(s, p) as usize,
        coluna: coluna_em(s, p) as usize,
        comprimento: comprimento as usize,
    }
}

/// Um token produzido, como valor matemático.
pub open spec fn descreve_token(t: Token) -> TokenLexico {
    TokenLexico { lexema: descreve(t.tipo), span: t.span }
}

/// O conteúdo e a posição de cada token de uma sequência.
pub open spec fn descreve_tokens(ts: Seq<Token>) -> Seq<TokenLexico> {
    ts.map_values(|t: Token| descreve_token(t))
}

/// A largura marcada de um texto: as colunas que ele ocupa na linha, ou
/// `minimo`, se forem menos.
pub open spec fn largura(fim_coluna: int, ini_coluna: int, minimo: int) -> int {
    if fim_coluna - ini_coluna > minimo {
        fim_coluna - ini_coluna
    } else {
        minimo
    }
}

/// A posição de um token que começa em `p` e termina logo antes de `r`: linha
/// e coluna do começo, e o comprimento (nos textos, as colunas ocupadas).
pub open spec fn span_token(s: Seq<char>, p: int, l: Lexema, r: int) -> Span {
    let comprimento = match l {
        Lexema::Texto(_) => largura(coluna_em(s, r), coluna_em(s, p), 1),
        Lexema::Interp(_) => largura(coluna_em(s, r), coluna_em(s, p), 2),
        _ => r - p,
    };
    Span {
        linha: linha_em(s, p) as usize,
        coluna: coluna_em(s, p) as usize,
        comprimento: comprimento as usize,
    }
}

/// A linha (a partir de 1) da posição `p`: uma a mais que as quebras de
/// linha antes dela.
pub open spec fn linha_em(s: Seq<char>, p: int) -> int
    decreases p,
{
    if p <= 0 {
        1
    } else {
        linha_em(s, p - 1) + (if car(s, p - 1) == '\n' {
            1int
        } else {
            0int
        })
    }
}

/// Avançar um caractere mantém a linha e a coluna: a linha sobe uma unidade
/// exatamente depois de uma quebra de linha; a coluna volta a 1 depois de uma
/// quebra e, fora disso, avança uma unidade.
pub proof fn lei_avanco(s: Seq<char>, p: int)
    requires
        0 <= p < s.len(),
    ensures
        linha_em(s, p + 1) == linha_em(s, p) + (if s[p] == '\n' { 1int } else { 0int }),
        coluna_em(s, p + 1) == (if s[p] == '\n' { 1int } else { coluna_em(s, p) + 1 }),
{
}

/// Quantas quebras de linha há nos `p` primeiros caracteres de `s`: as
/// posições `i < p` em que `s[i]` é `'\n'`, contadas uma a uma.
pub open spec fn quebras_antes(s: Seq<char>, p: int) -> int
    decreases p,
{
    if p <= 0 {
        0
    } else {
        quebras_antes(s, p - 1) + (if s[p - 1] == '\n' {
            1int
        } else {
            0int
        })
    }
}

/// A posição da última quebra de linha antes de `p`, ou -1 se não há.
pub open spec fn ultima_quebra(s: Seq<char>, p: int) -> int
    decreases p,
{
    if p <= 0 {
        -1
    } else if car(s, p - 1) == '\n' {
        p - 1
    } else {
        ultima_quebra(s, p - 1)
    }
}

/// A linha de uma posição é uma a mais que as quebras de linha antes dela, e
/// a coluna é a distância até a última quebra antes dela (ou até o começo,
/// contado a partir de -1).
pub proof fn lei_linha_coluna(s: Seq<char>, p: int)
    requires
        0 <= p <= s.len(),
    ensures
        linha_em(s, p) == 1 + quebras_antes(s, p),
        coluna_em(s, p) == p - ultima_quebra(s, p),
        ultima_quebra(s, p) == -1 || (0 <= ultima_quebra(s, p) < p && s[ultima_quebra(s, p)] == '\n'),
        forall|j: int| ultima_quebra(s, p) < j < p ==> s[j] != '\n',
    decreases p,
{
    if p > 0 {
        lei_linha_coluna(s, p - 1);
    }
}

/// A coluna (a partir de 1) da posição `p`: uma a mais que os caracteres
/// desde a última quebra de linha antes dela.
pub open spec fn coluna_em(s: Seq<char>, p: int) -> int
    decreases p,
{
    if p <= 0 {
        1
    } else if car(s, p - 1) == '\n' {
        1
    } else {
        coluna_em(s, p - 1) + 1
    }
}

/// Fim de um comentário de linha começado antes de `q`: o próximo `'\n'` (que
/// não faz parte do comentário) ou o fim do texto.
pub open spec fn fim_linha(s: Seq<char>, q: int) -> int
    decreases s.len() - q,
{
    if 0 <= q < s.len() && s[q] != '\n' {
        fim_linha(s, q + 1)
    } else {
        q
    }
}

/// Fim de um comentário de bloco cujo conteúdo começa em `q`: logo depois do
/// primeiro `*/`, ou nada, se ele nunca fecha.
pub open spec fn fim_bloco(s: Seq<char>, q: int) -> Option<int>
    decreases s.len() - q,
{
    if q < 0 || q >= s.len() {
        None
    } else if s[q] == '*' && car(s, q + 1) == '/' {
        Some(q + 2)
    } else {
        fim_bloco(s, q + 1)
    }
}

/// Onde terminam os espaços e comentários a partir de `q`, ou o erro de um
/// comentário de bloco que não fecha.
pub open spec fn pular(s: Seq<char>, q: int) -> Result<int, ErroLexico>
    decreases s.len() - q,
{
    if q < 0 || q >= s.len() {
        Ok(q)
    } else if eh_espaco(s[q]) {
        pular(s, q + 1)
    } else if s[q] == '/' && car(s, q + 1) == '/' {
        let f = fim_linha(s, q + 1);
        if q < f <= s.len() {
            pular(s, f)
        } else {
            Ok(q)
        }
    } else if s[q] == '/' && car(s, q + 1) == '*' {
        match fim_bloco(s, q + 2) {
            Some(f) => if q < f <= s.len() {
                pular(s, f)
            } else {
                Ok(q)
            },
            None => Err(ErroLexico { codigo: "K102"@, span: span_em(s, q, 2) }),
        }
    } else {
        Ok(q)
    }
}

/// Fim de uma sequência de dígitos decimais começada em `q`.
pub open spec fn fim_digitos(s: Seq<char>, q: int) -> int
    decreases s.len() - q,
{
    if 0 <= q < s.len() && eh_digito(s[q]) {
        fim_digitos(s, q + 1)
    } else {
        q
    }
}

/// Fim do resto de um identificador, a partir de `q`: letras, dígitos e `_`.
pub open spec fn fim_ident(s: Seq<char>, q: int) -> int
    decreases s.len() - q,
{
    if 0 <= q < s.len() && (eh_alfanumerico(s[q]) || s[q] == '_') {
        fim_ident(s, q + 1)
    } else {
        q
    }
}

/// Um número começado em `p`: inteiro se não tem parte decimal e cabe em
/// `i64`; senão decimal, guardado como escrito.
pub open spec fn numero_em(s: Seq<char>, p: int) -> (Lexema, int) {
    let f = fim_digitos(s, p);
    if car(s, f) == '.' && eh_digito(car(s, f + 1)) {
        let g = fim_digitos(s, f + 1);
        (Lexema::Decimal(s.subrange(p, g)), g)
    } else if valor_digitos(s.subrange(p, f)) <= i64::MAX {
        (Lexema::Inteiro(valor_digitos(s.subrange(p, f)) as int), f)
    } else {
        (Lexema::Decimal(s.subrange(p, f)), f)
    }
}

/// O identificador ou a palavra-chave começada em `p`.
pub open spec fn palavra_em(s: Seq<char>, p: int) -> (Lexema, int) {
    let f = fim_ident(s, p + 1);
    match palavra_chave_spec(s.subrange(p, f)) {
        Some(k) => (descreve(k), f),
        None => (Lexema::Ident(s.subrange(p, f)), f),
    }
}

/// O que uma sequência de escape `\e` produz num texto.
pub open spec fn escape(e: char) -> Seq<char> {
    if e == 'n' {
        seq!['\n']
    } else if e == 't' {
        seq!['\t']
    } else if e == '\\' {
        seq!['\\']
    } else if e == '"' {
        seq!['"']
    } else {
        seq!['\\', e]
    }
}

/// O conteúdo de um texto a partir de `q` (já lido `acc`), e a posição logo
/// depois das aspas finais; erro se a linha ou o código acabar antes.
pub open spec fn texto_em(s: Seq<char>, q: int, acc: Seq<char>) -> Result<(Seq<char>, int), ()>
    decreases s.len() + 1 - q,
{
    if q < 0 || q >= s.len() || s[q] == '\n' {
        Err(())
    } else if s[q] == '"' {
        Ok((acc, q + 1))
    } else if s[q] == '\\' {
        texto_em(s, q + 2, acc + escape(car(s, q + 1)))
    } else {
        texto_em(s, q + 1, acc.push(s[q]))
    }
}

/// O código de uma interpolação a partir de `q` (já lido `cod`, com `prof`
/// chaves abertas, dentro ou fora de um texto), até a chave que fecha a
/// primeira, e a posição logo depois dela.
pub open spec fn codigo_em(
    s: Seq<char>,
    q: int,
    cod: Seq<char>,
    prof: nat,
    em_texto: bool,
) -> Result<(Seq<char>, int), int>
    decreases s.len() + 1 - q,
{
    if q < 0 || q >= s.len() || s[q] == '\n' {
        Err(q)
    } else if em_texto {
        if s[q] == '\\' {
            codigo_em(s, q + 2, cod.push(s[q]).push(car(s, q + 1)), prof, true)
        } else if s[q] == '"' {
            codigo_em(s, q + 1, cod.push(s[q]), prof, false)
        } else {
            codigo_em(s, q + 1, cod.push(s[q]), prof, true)
        }
    } else if s[q] == '"' {
        codigo_em(s, q + 1, cod.push(s[q]), prof, true)
    } else if s[q] == '{' {
        codigo_em(s, q + 1, cod.push(s[q]), prof + 1, false)
    } else if s[q] == '}' {
        if prof <= 1 {
            Ok((cod, q + 1))
        } else {
            codigo_em(s, q + 1, cod.push(s[q]), (prof - 1) as nat, false)
        }
    } else {
        codigo_em(s, q + 1, cod.push(s[q]), prof, false)
    }
}

/// Fecha o trecho literal em andamento, se não estiver vazio.
pub open spec fn fecha_lit(pecas: Seq<PedacoLexico>, lit: Seq<char>) -> Seq<PedacoLexico> {
    if lit.len() > 0 {
        pecas.push(PedacoLexico::Lit(lit))
    } else {
        pecas
    }
}

/// Os pedaços de um texto interpolado a partir de `q` (já lidos `pecas` e o
/// trecho literal `lit`), e a posição logo depois das aspas finais.
pub open spec fn interp_em(
    s: Seq<char>,
    q: int,
    pecas: Seq<PedacoLexico>,
    lit: Seq<char>,
) -> Result<(Seq<PedacoLexico>, int), Option<int>>
    decreases s.len() + 1 - q,
{
    if q < 0 || q >= s.len() || s[q] == '\n' {
        Err(None)
    } else if s[q] == '"' {
        Ok((fecha_lit(pecas, lit), q + 1))
    } else if s[q] == '\\' {
        interp_em(s, q + 2, pecas, lit + escape(car(s, q + 1)))
    } else if s[q] == '{' {
        if car(s, q + 1) == '{' {
            interp_em(s, q + 2, pecas, lit.push('{'))
        } else {
            match codigo_em(s, q + 1, Seq::empty(), 1, false) {
                Ok((cod, r)) => if q < r <= s.len() {
                    interp_em(s, r, fecha_lit(pecas, lit).push(PedacoLexico::Cod(cod)), Seq::empty())
                } else {
                    Err(None)
                },
                Err(f) => Err(Some(f)),
            }
        }
    } else if s[q] == '}' {
        if car(s, q + 1) == '}' {
            interp_em(s, q + 2, pecas, lit.push('}'))
        } else {
            Err(Some(q))
        }
    } else {
        interp_em(s, q + 1, pecas, lit.push(s[q]))
    }
}

/// Um símbolo começado em `p` e a posição logo depois dele; nada se o
/// caractere não começa nenhum símbolo da linguagem.
pub open spec fn simbolo_em(s: Seq<char>, p: int) -> Option<(TipoToken, int)> {
    let c = car(s, p);
    let d = car(s, p + 1);
    if c == '+' {
        Some(if d == '=' { (TipoToken::MaisIgual, p + 2) } else { (TipoToken::Mais, p + 1) })
    } else if c == '-' {
        Some(if d == '=' { (TipoToken::MenosIgual, p + 2) } else { (TipoToken::Menos, p + 1) })
    } else if c == '*' {
        Some(if d == '=' { (TipoToken::EstrelaIgual, p + 2) } else { (TipoToken::Estrela, p + 1) })
    } else if c == '/' {
        Some(if d == '=' { (TipoToken::BarraIgual, p + 2) } else { (TipoToken::Barra, p + 1) })
    } else if c == '%' {
        Some(if d == '=' { (TipoToken::PorcentoIgual, p + 2) } else { (TipoToken::Porcento, p + 1) })
    } else if c == '&' {
        Some((TipoToken::EBit, p + 1))
    } else if c == '|' {
        Some((TipoToken::OuBit, p + 1))
    } else if c == '^' {
        Some((TipoToken::OuExclusivo, p + 1))
    } else if c == '~' {
        Some((TipoToken::Til, p + 1))
    } else if c == '(' {
        Some((TipoToken::ParenEsq, p + 1))
    } else if c == ')' {
        Some((TipoToken::ParenDir, p + 1))
    } else if c == '{' {
        Some((TipoToken::ChaveEsq, p + 1))
    } else if c == '}' {
        Some((TipoToken::ChaveDir, p + 1))
    } else if c == '[' {
        Some((TipoToken::ColcheteEsq, p + 1))
    } else if c == ']' {
        Some((TipoToken::ColcheteDir, p + 1))
    } else if c == ',' {
        Some((TipoToken::Virgula, p + 1))
    } else if c == ':' {
        Some((TipoToken::DoisPontos, p + 1))
    } else if c == '?' {
        Some((TipoToken::Interrogacao, p + 1))
    } else if c == '.' {
        Some(if d == '.' && car(s, p + 2) == '.' { (TipoToken::Reticencias, p + 3) } else { (TipoToken::Ponto, p + 1) })
    } else if c == '=' {
        Some(if d == '=' { (TipoToken::IgualIgual, p + 2) } else { (TipoToken::Igual, p + 1) })
    } else if c == '!' {
        if d == '=' {
            Some((TipoToken::Diferente, p + 2))
        } else {
            None
        }
    } else if c == '<' {
        Some(if d == '=' {
            (TipoToken::MenorIgual, p + 2)
        } else if d == '<' {
            (TipoToken::DeslocaEsq, p + 2)
        } else {
            (TipoToken::Menor, p + 1)
        })
    } else if c == '>' {
        Some(if d == '=' {
            (TipoToken::MaiorIgual, p + 2)
        } else if d == '>' {
            (TipoToken::DeslocaDir, p + 2)
        } else {
            (TipoToken::Maior, p + 1)
        })
    } else {
        None
    }
}

/// Como cada símbolo da linguagem se escreve no código-fonte.
pub open spec fn grafia_simbolo(t: TipoToken) -> Option<Seq<char>> {
    match t {
        TipoToken::Barra => Some(seq!['/']),
        TipoToken::BarraIgual => Some(seq!['/', '=']),
        TipoToken::ChaveDir => Some(seq!['}']),
        TipoToken::ChaveEsq => Some(seq!['{']),
        TipoToken::ColcheteDir => Some(seq![']']),
        TipoToken::ColcheteEsq => Some(seq!['[']),
        TipoToken::DeslocaDir => Some(seq!['>', '>']),
        TipoToken::DeslocaEsq => Some(seq!['<', '<']),
        TipoToken::Diferente => Some(seq!['!', '=']),
        TipoToken::DoisPontos => Some(seq![':']),
        TipoToken::EBit => Some(seq!['&']),
        TipoToken::Estrela => Some(seq!['*']),
        TipoToken::EstrelaIgual => Some(seq!['*', '=']),
        TipoToken::Igual => Some(seq!['=']),
        TipoToken::IgualIgual => Some(seq!['=', '=']),
        TipoToken::Interrogacao => Some(seq!['?']),
        TipoToken::Maior => Some(seq!['>']),
        TipoToken::MaiorIgual => Some(seq!['>', '=']),
        TipoToken::Mais => Some(seq!['+']),
        TipoToken::MaisIgual => Some(seq!['+', '=']),
        TipoToken::Menor => Some(seq!['<']),
        TipoToken::MenorIgual => Some(seq!['<', '=']),
        TipoToken::Menos => Some(seq!['-']),
        TipoToken::MenosIgual => Some(seq!['-', '=']),
        TipoToken::OuBit => Some(seq!['|']),
        TipoToken::OuExclusivo => Some(seq!['^']),
        TipoToken::ParenDir => Some(seq![')']),
        TipoToken::ParenEsq => Some(seq!['(']),
        TipoToken::Ponto => Some(seq!['.']),
        TipoToken::Porcento => Some(seq!['%']),
        TipoToken::PorcentoIgual => Some(seq!['%', '=']),
        TipoToken::Reticencias => Some(seq!['.', '.', '.']),
        TipoToken::Til => Some(seq!['~']),
        TipoToken::Virgula => Some(seq![',']),
        _ => None,
    }
}

/// O símbolo que o léxico lê é o que os caracteres escrevem: o trecho lido
/// é a grafia do token (`>` dá `Maior`, `>=` dá `MaiorIgual`, `(` dá
/// `ParenEsq`, ...); e quando o caractere seguinte ainda forma um símbolo
/// mais longo (`>=`, `==`, `...`), é o mais longo que se lê.
pub proof fn lei_simbolos(s: Seq<char>, p: int)
    requires
        0 <= p,
    ensures
        simbolo_em(s, p) matches Some((t, q)) ==> p < q <= s.len() && grafia_simbolo(t) == Some(s.subrange(p, q)),
        simbolo_em(s, p) matches Some((t, q)) ==> (q == p + 1 && p + 1 < s.len() ==> !(s[p + 1] == '=' && (s[p]
            == '+' || s[p] == '-' || s[p] == '*' || s[p] == '/' || s[p] == '%' || s[p] == '=' || s[p] == '<'
            || s[p] == '>'))),
{
    if p < s.len() {
        assert(car(s, p) == s[p]);
        assert(s.subrange(p, p + 1) =~= seq![s[p]]);
        if p + 1 < s.len() {
            assert(car(s, p + 1) == s[p + 1]);
            assert(s.subrange(p, p + 2) =~= seq![s[p], s[p + 1]]);
            if p + 2 < s.len() {
                assert(s.subrange(p, p + 3) =~= seq![s[p], s[p + 1], s[p + 2]]);
            }
        }
    }
}

/// O token que começa em `p` (fora de espaços e comentários) e a posição logo
/// depois dele, ou o código do erro léxico.
pub open spec fn token_em(s: Seq<char>, p: int) -> Result<(Lexema, int), ErroLexico> {
    let c = car(s, p);
    if c == '$' && car(s, p + 1) == '"' {
        match interp_em(s, p + 2, Seq::empty(), Seq::empty()) {
            Ok((ps, r)) => Ok((Lexema::Interp(ps), r)),
            Err(None) => Err(ErroLexico { codigo: "K104"@, span: span_em(s, p, 2) }),
            Err(Some(f)) => Err(ErroLexico { codigo: "K104"@, span: span_em(s, f, 1) }),
        }
    } else if eh_digito(c) {
        Ok(numero_em(s, p))
    } else if c == '"' {
        match texto_em(s, p + 1, Seq::empty()) {
            Ok((t, r)) => Ok((Lexema::Texto(t), r)),
            Err(_) => Err(ErroLexico { codigo: "K103"@, span: span_em(s, p, 1) }),
        }
    } else if eh_alfabetico(c) || c == '_' {
        Ok(palavra_em(s, p))
    } else {
        match simbolo_em(s, p) {
            Some((t, r)) => Ok((Lexema::Simples(t), r)),
            None => Err(ErroLexico { codigo: "K101"@, span: span_em(s, p, 1) }),
        }
    }
}

/// Os tokens do código-fonte a partir de `p`, depois dos já lidos `acc`,
/// terminando com `FimDeArquivo`; ou o código do primeiro erro léxico.
pub open spec fn lexico_de(s: Seq<char>, p: int, acc: Seq<TokenLexico>) -> Result<
    Seq<TokenLexico>,
    ErroLexico,
>
    decreases s.len() + 1 - p,
{
    match pular(s, p) {
        Err(c) => Err(c),
        Ok(q) => if q >= s.len() {
            Ok(
                acc.push(
                    TokenLexico {
                        lexema: Lexema::Simples(TipoToken::FimDeArquivo),
                        span: Span {
                            linha: linha_em(s, q) as usize,
                            coluna: coluna_em(s, q) as usize,
                            comprimento: 1,
                        },
                    },
                ),
            )
        } else if p <= q {
            match token_em(s, q) {
                Err(c) => Err(c),
                Ok((l, r)) => if q < r <= s.len() {
                    lexico_de(s, r, acc.push(TokenLexico { lexema: l, span: span_token(s, q, l, r) }))
                } else {
                    Err(ErroLexico { codigo: Seq::empty(), span: span_em(s, q, 0) })
                },
            }
        } else {
            Err(ErroLexico { codigo: Seq::empty(), span: span_em(s, q, 0) })
        },
    }
}

/// Os tokens de um código-fonte inteiro, ou o código do primeiro erro léxico.
pub open spec fn lexico(s: Seq<char>) -> Result<Seq<TokenLexico>, ErroLexico> {
    lexico_de(s, 0, Seq::empty())
}

pub struct Lexer {
    fonte: Vec<char>,
    pos: usize,
    linha: usize,
    coluna: usize,
}

/// O valor de um literal inteiro, se couber em `i64`.
fn analisar_inteiro(d: &[char]) -> (r: Option<i64>)
    requires
        so_digitos(d@),
    ensures
        r is Some <==> valor_digitos(d@) <= i64::MAX,
        r matches Some(v) ==> v == valor_digitos(d@),
{
    let mut acc: i64 = 0;
    let mut i: usize = 0;
    while i < d.len()
        invariant
            i <= d@.len(),
            so_digitos(d@),
            acc as int == valor_digitos(d@.take(i as int)),
        decreases d@.len() - i,
    {
        assert(eh_digito(d@[i as int]));
        let dig = (d[i] as u32 - '0' as u32) as i64;
        assert(d@.take(i + 1).drop_last() =~= d@.take(i as int));
        if acc > (i64::MAX - dig) / 10 {
            proof {
                lema_valor_prefixo(d@, i + 1);
            }
            return None;
        }
        acc = acc * 10 + dig;
        i = i + 1;
    }
    assert(d@.take(d@.len() as int) =~= d@);
    Some(acc)
}

/// O valor de um prefixo de dígitos não passa do valor do todo.
proof fn lema_valor_prefixo(s: Seq<char>, k: int)
    requires
        0 <= k <= s.len(),
        so_digitos(s),
    ensures
        valor_digitos(s.take(k)) <= valor_digitos(s),
    decreases s.len(),
{
    if k < s.len() {
        assert(s.drop_last().take(k) =~= s.take(k));
        assert forall|i: int| 0 <= i < s.drop_last().len() implies eh_digito(
            #[trigger] s.drop_last()[i],
        ) by {
            assert(s.drop_last()[i] == s[i]);
        }
        lema_valor_prefixo(s.drop_last(), k);
    } else {
        assert(s.take(k) =~= s);
    }
}

/// Um diagnóstico com código, mensagem e rótulo.
/// O diagnóstico tem a mensagem, o rótulo e a ajuda dados.
pub open spec fn tem_textos(d: Diagnostico, mensagem: Seq<char>, rotulo: Option<Seq<char>>, ajuda: Option<Seq<char>>) -> bool {
    &&& d.mensagem@ == mensagem
    &&& match (d.rotulo, rotulo) {
        (Some(a), Some(b)) => a@ == b,
        (None, None) => true,
        _ => false,
    }
    &&& match (d.ajuda, ajuda) {
        (Some(a), Some(b)) => a@ == b,
        (None, None) => true,
        _ => false,
    }
}

/// Os textos de K101 para o caractere `c`: um `!` sozinho ganha a ajuda de
/// `!=` e `nao`; os outros caracteres são nomeados na mensagem.
pub open spec fn textos_k101(d: Diagnostico, c: char) -> bool {
    if c == '!' {
        tem_textos(
            d,
            "caractere '!' inesperado"@,
            Some("aqui"@),
            Some("para 'diferente de', use '!='; para negação lógica, use 'nao'"@),
        )
    } else {
        tem_textos(d, "caractere '"@.push(c) + "' inesperado"@, Some("não faz parte da linguagem kaju aqui"@), None)
    }
}

/// Os textos de K102 (comentário de bloco sem fim).
pub open spec fn textos_k102(d: Diagnostico) -> bool {
    tem_textos(d, "comentário de bloco não foi fechado"@, Some("este /* nunca é fechado"@), Some("feche o comentário com */"@))
}

/// Os textos de K103 (texto sem aspas de fechamento).
pub open spec fn textos_k103(d: Diagnostico) -> bool {
    tem_textos(
        d,
        "texto não foi fechado com aspas"@,
        Some("o texto começa aqui e nunca fecha"@),
        Some("feche o texto com \" no fim da linha"@),
    )
}

/// Os textos de K104: texto interpolado sem fim, `{` sem `}` ou `}` sozinho.
pub open spec fn textos_k104(d: Diagnostico) -> bool {
    ||| tem_textos(d, "texto interpolado não foi fechado"@, Some("começa aqui e nunca fecha"@), Some("feche com \" na mesma linha"@))
    ||| tem_textos(d, "'{' não foi fechado na interpolação"@, Some("faltou '}'"@), None)
    ||| tem_textos(d, "'}' inesperado na interpolação"@, None, Some("para uma chave literal, use '}}'"@))
}

/// Os textos de um erro léxico, conforme o código.
pub open spec fn textos_lexicos(d: Diagnostico) -> bool {
    ||| d.codigo@ == "K101"@ && exists|c: char| #[trigger] textos_k101(d, c)
    ||| d.codigo@ == "K102"@ && textos_k102(d)
    ||| d.codigo@ == "K103"@ && textos_k103(d)
    ||| d.codigo@ == "K104"@ && textos_k104(d)
}

fn diag(codigo: &str, mensagem: &str, span: Span, rotulo: &str) -> (d: Diagnostico)
    ensures
        d.codigo@ == codigo@,
        d.span == span,
        d.mensagem@ == mensagem@,
        d.rotulo matches Some(r) && r@ == rotulo@,
        d.ajuda is None,
{
    Diagnostico::novo(codigo, texto(mensagem), span).com_rotulo(texto(rotulo))
}

impl Lexer {
    /// O estado de um analisador léxico pronto para produzir tokens.
    pub closed spec fn bem_formado(&self) -> bool {
        self.valido() && self.pos <= self.fonte@.len()
    }

    /// O estado durante a análise (depois de um escape no fim do texto, a
    /// posição pode passar um caractere do fim).
    closed spec fn valido(&self) -> bool {
        &&& self.fonte@.len() <= isize::MAX
        &&& self.pos <= self.fonte@.len() + 1
        &&& 1 <= self.linha <= self.pos + 1
        &&& 1 <= self.coluna <= self.pos + 1
        &&& self.linha == linha_em(self.fonte@, self.pos as int)
        &&& self.coluna == coluna_em(self.fonte@, self.pos as int)
    }

    /// O código-fonte que está sendo analisado.
    pub closed spec fn fonte_spec(&self) -> Seq<char> {
        self.fonte@
    }

    pub closed spec fn pos_spec(&self) -> int {
        self.pos as int
    }

    /// A linha da posição atual, como o analisador a guarda.
    pub closed spec fn linha_spec(&self) -> int {
        self.linha as int
    }

    /// A coluna da posição atual, como o analisador a guarda.
    pub closed spec fn coluna_spec(&self) -> int {
        self.coluna as int
    }

    /// Em todo estado bem formado do analisador, a linha é uma a mais que as
    /// quebras de linha antes da posição, e a coluna é a distância até a
    /// última delas (ou até o começo, contado a partir de -1): avançar um
    /// caractere mantém as duas corretas.
    pub proof fn lei_posicao(&self)
        requires
            self.bem_formado(),
        ensures
            self.linha_spec() == 1 + quebras_antes(self.fonte_spec(), self.pos_spec()),
            self.coluna_spec() == self.pos_spec() - ultima_quebra(self.fonte_spec(), self.pos_spec()),
    {
        lei_linha_coluna(self.fonte@, self.pos as int);
    }

    pub fn novo(fonte: &str) -> (l: Lexer)
        ensures
            l.bem_formado(),
            l.fonte_spec() == fonte@,
            l.pos_spec() == 0,
    {
        Lexer { fonte: caracteres(fonte), pos: 0, linha: 1, coluna: 1 }
    }

    fn fim(&self) -> (r: bool)
        ensures
            r == (self.pos >= self.fonte@.len()),
    {
        self.pos >= self.fonte.len()
    }

    fn atual(&self) -> (c: char)
        ensures
            c == car(self.fonte@, self.pos as int),
    {
        if self.pos < self.fonte.len() {
            self.fonte[self.pos]
        } else {
            '\0'
        }
    }

    fn proximo(&self) -> (c: char)
        requires
            self.valido(),
        ensures
            c == car(self.fonte@, self.pos + 1),
    {
        if self.pos < self.fonte.len() && self.pos + 1 < self.fonte.len() {
            self.fonte[self.pos + 1]
        } else {
            '\0'
        }
    }

    /// Avança um caractere, mantendo linha e coluna corretas.
    fn avancar(&mut self) -> (c: char)
        requires
            old(self).valido(),
            old(self).pos <= old(self).fonte@.len(),
        ensures
            final(self).valido(),
            final(self).fonte == old(self).fonte,
            c == car(old(self).fonte@, old(self).pos as int),
            final(self).pos == old(self).pos + 1,
            final(self).linha == (if c == '\n' { old(self).linha + 1 } else { old(self).linha as int }),
            final(self).coluna == (if c == '\n' { 1int } else { old(self).coluna + 1 }),
    {
        let c = self.atual();
        self.pos = self.pos + 1;
        if c == '\n' {
            self.linha = self.linha + 1;
            self.coluna = 1;
        } else {
            self.coluna = self.coluna + 1;
        }
        c
    }

    /// Produz todos os tokens até o fim do arquivo.
    pub fn tokenizar(&mut self) -> (r: Result<Vec<Token>, Diagnostico>)
        requires
            old(self).bem_formado(),
        ensures
            r matches Ok(ts) ==> tokens_bem_formados(ts@, old(self).fonte_spec().len()),
            r matches Err(d) ==> codigo_lexico(d.codigo@),
            r matches Err(d) ==> textos_lexicos(d),
            r matches Ok(ts) ==> lexico_de(old(self).fonte_spec(), old(self).pos_spec(), Seq::empty())
                == Ok::<Seq<TokenLexico>, ErroLexico>(descreve_tokens(ts@)),
            r matches Err(d) ==> lexico_de(old(self).fonte_spec(), old(self).pos_spec(), Seq::empty())
                == Err::<Seq<TokenLexico>, ErroLexico>(ErroLexico { codigo: d.codigo@, span: d.span }),
    {
        let mut tokens: Vec<Token> = Vec::new();
        let ghost n = self.fonte@.len();
        let ghost s = self.fonte@;
        let ghost inicio = self.pos as int;
        proof {
            assert(descreve_tokens(tokens@) =~= Seq::<TokenLexico>::empty());
        }
        loop
            invariant_except_break
                self.pos <= self.fonte@.len(),
                forall|i: int| 0 <= i < tokens@.len() ==> token_bem_formado(#[trigger] tokens@[i], n),
                lexico_de(s, self.pos as int, descreve_tokens(tokens@)) == lexico_de(s, inicio, Seq::empty()),
            invariant
                self.valido(),
                self.fonte@ == old(self).fonte@,
                s == self.fonte@,
                n == self.fonte@.len(),
                inicio == old(self).pos,
            ensures
                tokens_bem_formados(tokens@, n),
                lexico_de(s, inicio, Seq::empty()) == Ok::<Seq<TokenLexico>, ErroLexico>(
                    descreve_tokens(tokens@),
                ),
            decreases self.fonte@.len() + 1 - self.pos,
        {
            let ghost p0 = self.pos as int;
            let ghost acc = descreve_tokens(tokens@);
            self.pular_espacos_e_comentarios()?;
            if self.fim() {
                let span = Span::novo(self.linha, self.coluna, 1);
                let ghost antes = tokens@;
                tokens.push(Token::novo(TipoToken::FimDeArquivo, String::new(), span));
                assert forall|i: int| 0 <= i < tokens@.len() - 1 implies token_bem_formado(
                    #[trigger] tokens@[i],
                    n,
                ) by {
                    assert(tokens@[i] == antes[i]);
                }
                assert(descreve_tokens(tokens@) =~= acc.push(descreve_token(tokens@.last())));
                break;
            }
            let t = self.proximo_token()?;
            let ghost l = descreve_token(t);
            tokens.push(t);
            assert(descreve_tokens(tokens@) =~= acc.push(l));
        }
        Ok(tokens)
    }

    fn pular_espacos_e_comentarios(&mut self) -> (r: Result<(), Diagnostico>)
        requires
            old(self).valido(),
            old(self).pos <= old(self).fonte@.len(),
        ensures
            final(self).valido(),
            final(self).fonte == old(self).fonte,
            final(self).pos >= old(self).pos,
            final(self).pos <= final(self).fonte@.len(),
            r is Ok ==> !eh_espaco(car(final(self).fonte@, final(self).pos as int)),
            r matches Err(d) ==> d.codigo@ == "K102"@,
            r matches Err(d) ==> textos_k102(d),
            r is Ok ==> pular(old(self).fonte@, old(self).pos as int) == Ok::<int, ErroLexico>(
                final(self).pos as int,
            ),
            r matches Err(d) ==> pular(old(self).fonte@, old(self).pos as int) == Err::<
                int,
                ErroLexico,
            >(ErroLexico { codigo: d.codigo@, span: d.span }),
    {
        loop
            invariant
                self.valido(),
                self.fonte == old(self).fonte,
                self.pos >= old(self).pos,
                self.pos <= self.fonte@.len(),
                pular(self.fonte@, self.pos as int) == pular(self.fonte@, old(self).pos as int),
            ensures
                self.valido(),
                self.fonte == old(self).fonte,
                self.pos >= old(self).pos,
                self.pos <= self.fonte@.len(),
                !eh_espaco(car(self.fonte@, self.pos as int)),
                pular(self.fonte@, self.pos as int) == Ok::<int, ErroLexico>(self.pos as int),
                pular(self.fonte@, self.pos as int) == pular(self.fonte@, old(self).pos as int),
            decreases self.fonte@.len() - self.pos,
        {
            let ghost p0 = self.pos;
            let c = self.atual();
            if c == ' ' || c == '\t' || c == '\r' || c == '\n' {
                self.avancar();
            } else if c == '/' && self.proximo() == '/' {
                // comentário de linha
                self.avancar();
                while !self.fim() && self.atual() != '\n'
                    invariant
                        self.pos > p0,
                        self.valido(),
                        self.fonte == old(self).fonte,
                        self.pos >= old(self).pos,
                        self.pos <= self.fonte@.len(),
                        fim_linha(self.fonte@, self.pos as int) == fim_linha(self.fonte@, p0 + 1),
                    decreases self.fonte@.len() - self.pos,
                {
                    self.avancar();
                }
            } else if c == '/' && self.proximo() == '*' {
                // comentário de bloco
                let ini_linha = self.linha;
                let ini_coluna = self.coluna;
                self.avancar();
                self.avancar();
                loop
                    invariant_except_break
                        fim_bloco(self.fonte@, self.pos as int) == fim_bloco(self.fonte@, p0 + 2),
                    invariant
                        self.pos > p0 + 1,
                        self.valido(),
                        self.fonte == old(self).fonte,
                        self.pos >= old(self).pos,
                        self.pos <= self.fonte@.len(),
                        p0 + 1 < self.fonte@.len(),
                        self.fonte@[p0 as int] == '/',
                        self.fonte@[p0 + 1] == '*',
                        pular(self.fonte@, p0 as int) == pular(self.fonte@, old(self).pos as int),
                        ini_linha == linha_em(self.fonte@, p0 as int),
                        ini_coluna == coluna_em(self.fonte@, p0 as int),
                    ensures
                        fim_bloco(self.fonte@, p0 + 2) == Some(self.pos as int),
                    decreases self.fonte@.len() - self.pos,
                {
                    if self.fim() {
                        let d = diag(
                            "K102",
                            "comentário de bloco não foi fechado",
                            Span::novo(ini_linha, ini_coluna, 2),
                            "este /* nunca é fechado",
                        ).com_ajuda(texto("feche o comentário com */"));
                        return Err(d);
                    }
                    if self.atual() == '*' && self.proximo() == '/' {
                        self.avancar();
                        self.avancar();
                        break;
                    }
                    self.avancar();
                }
            } else {
                break;
            }
        }
        Ok(())
    }

    fn proximo_token(&mut self) -> (r: Result<Token, Diagnostico>)
        requires
            old(self).valido(),
            old(self).pos < old(self).fonte@.len(),
        ensures
            final(self).valido(),
            final(self).fonte == old(self).fonte,
            final(self).pos > old(self).pos,
            r is Ok ==> final(self).pos <= final(self).fonte@.len(),
            r matches Ok(t) ==> token_bem_formado(t, final(self).fonte@.len()),
            r matches Err(d) ==> codigo_lexico(d.codigo@),
            r matches Err(d) ==> textos_lexicos(d),
            r matches Err(d) ==> (d.codigo@ == "K101"@ ==> textos_k101(d, old(self).fonte@[old(self).pos as int])),
            r matches Ok(t) ==> token_em(old(self).fonte@, old(self).pos as int) == Ok::<
                (Lexema, int),
                ErroLexico,
            >((descreve(t.tipo), final(self).pos as int)),
            r matches Ok(t) ==> t.span == span_token(
                old(self).fonte@,
                old(self).pos as int,
                descreve(t.tipo),
                final(self).pos as int,
            ),
            r matches Err(d) ==> token_em(old(self).fonte@, old(self).pos as int) == Err::<
                (Lexema, int),
                ErroLexico,
            >(ErroLexico { codigo: d.codigo@, span: d.span }),
    {
        proof {
            reveal_strlit("K101");
            reveal_strlit("K102");
            reveal_strlit("K103");
            reveal_strlit("K104");
            assert("K101"@[3] != "K103"@[3]);
            assert("K101"@[3] != "K104"@[3]);
        }
        let ini_linha = self.linha;
        let ini_coluna = self.coluna;
        let c = self.atual();

        // Texto interpolado: $"... {expr} ..."
        if c == '$' && self.proximo() == '"' {
            self.avancar();  // consome '$'
            return self.ler_texto_interp(ini_linha, ini_coluna);
        }
        // Número
        if digito(c) {
            return Ok(self.ler_numero(ini_linha, ini_coluna));
        }
        // Texto
        if c == '"' {
            return self.ler_texto(ini_linha, ini_coluna);
        }
        // Identificador ou palavra-chave
        if alfabetico(c) || c == '_' {
            return Ok(self.ler_identificador(ini_linha, ini_coluna));
        }
        // Símbolos
        self.avancar();
        let (tipo, comprimento): (TipoToken, usize) = if c == '+' {
            self.talvez_igual(TipoToken::MaisIgual, TipoToken::Mais)
        } else if c == '-' {
            self.talvez_igual(TipoToken::MenosIgual, TipoToken::Menos)
        } else if c == '*' {
            self.talvez_igual(TipoToken::EstrelaIgual, TipoToken::Estrela)
        } else if c == '/' {
            self.talvez_igual(TipoToken::BarraIgual, TipoToken::Barra)
        } else if c == '%' {
            self.talvez_igual(TipoToken::PorcentoIgual, TipoToken::Porcento)
        } else if c == '&' {
            (TipoToken::EBit, 1)
        } else if c == '|' {
            (TipoToken::OuBit, 1)
        } else if c == '^' {
            (TipoToken::OuExclusivo, 1)
        } else if c == '~' {
            (TipoToken::Til, 1)
        } else if c == '(' {
            (TipoToken::ParenEsq, 1)
        } else if c == ')' {
            (TipoToken::ParenDir, 1)
        } else if c == '{' {
            (TipoToken::ChaveEsq, 1)
        } else if c == '}' {
            (TipoToken::ChaveDir, 1)
        } else if c == '[' {
            (TipoToken::ColcheteEsq, 1)
        } else if c == ']' {
            (TipoToken::ColcheteDir, 1)
        } else if c == ',' {
            (TipoToken::Virgula, 1)
        } else if c == ':' {
            (TipoToken::DoisPontos, 1)
        } else if c == '?' {
            (TipoToken::Interrogacao, 1)
        } else if c == '.' {
            if self.atual() == '.' && self.proximo() == '.' {
                self.avancar();
                self.avancar();
                (TipoToken::Reticencias, 3)
            } else {
                (TipoToken::Ponto, 1)
            }
        } else if c == '=' {
            if self.atual() == '=' {
                self.avancar();
                (TipoToken::IgualIgual, 2)
            } else {
                (TipoToken::Igual, 1)
            }
        } else if c == '!' {
            if self.atual() == '=' {
                self.avancar();
                (TipoToken::Diferente, 2)
            } else {
                let d = diag(
                    "K101",
                    "caractere '!' inesperado",
                    Span::novo(ini_linha, ini_coluna, 1),
                    "aqui",
                ).com_ajuda(
                    texto("para 'diferente de', use '!='; para negação lógica, use 'nao'"),
                );
                assert(textos_k101(d, c));
                return Err(d);
            }
        } else if c == '<' {
            if self.atual() == '=' {
                self.avancar();
                (TipoToken::MenorIgual, 2)
            } else if self.atual() == '<' {
                self.avancar();
                (TipoToken::DeslocaEsq, 2)
            } else {
                (TipoToken::Menor, 1)
            }
        } else if c == '>' {
            if self.atual() == '=' {
                self.avancar();
                (TipoToken::MaiorIgual, 2)
            } else if self.atual() == '>' {
                self.avancar();
                (TipoToken::DeslocaDir, 2)
            } else {
                (TipoToken::Maior, 1)
            }
        } else {
            let mut msg = texto("caractere '");
            empurrar(&mut msg, c);
            msg.append("' inesperado");
            let d = Diagnostico::novo("K101", msg, Span::novo(ini_linha, ini_coluna, 1)).com_rotulo(
                texto("não faz parte da linguagem kaju aqui"),
            );
            assert(textos_k101(d, c));
            return Err(d);
        };
        let span = Span::novo(ini_linha, ini_coluna, comprimento);
        let mut lexema = String::new();
        empurrar(&mut lexema, c);
        assert(lexema@ =~= seq![c]);
        Ok(Token::novo(tipo, lexema, span))
    }

    /// Se o próximo caractere for '=', devolve o token composto; senão o simples.
    fn talvez_igual(&mut self, composto: TipoToken, simples: TipoToken) -> (r: (TipoToken, usize))
        requires
            old(self).valido(),
            old(self).pos <= old(self).fonte@.len(),
        ensures
            final(self).valido(),
            final(self).fonte == old(self).fonte,
            final(self).pos >= old(self).pos,
            final(self).pos <= final(self).fonte@.len() || final(self).pos == old(self).pos,
            (r.0 == composto && r.1 == 2) || (r.0 == simples && r.1 == 1),
            car(old(self).fonte@, old(self).pos as int) == '=' ==> r.0 == composto && r.1 == 2
                && final(self).pos == old(self).pos + 1,
            car(old(self).fonte@, old(self).pos as int) != '=' ==> r.0 == simples && r.1 == 1
                && final(self).pos == old(self).pos,
    {
        if self.atual() == '=' {
            self.avancar();
            (composto, 2)
        } else {
            (simples, 1)
        }
    }

    fn ler_numero(&mut self, linha: usize, coluna: usize) -> (t: Token)
        requires
            old(self).valido(),
            old(self).pos < old(self).fonte@.len(),
            eh_digito(old(self).fonte@[old(self).pos as int]),
            linha >= 1,
            coluna >= 1,
        ensures
            final(self).valido(),
            final(self).fonte == old(self).fonte,
            final(self).pos > old(self).pos,
            final(self).pos <= final(self).fonte@.len(),
            token_bem_formado(t, final(self).fonte@.len()),
            numero_em(old(self).fonte@, old(self).pos as int) == (descreve(t.tipo), final(self).pos as int),
            t.span == (Span { linha, coluna, comprimento: (final(self).pos - old(self).pos) as usize }),
    {
        let inicio = self.pos;
        while digito(self.atual())
            invariant
                self.valido(),
                self.fonte == old(self).fonte,
                inicio == old(self).pos,
                inicio <= self.pos <= self.fonte@.len(),
                so_digitos(self.fonte@.subrange(inicio as int, self.pos as int)),
                fim_digitos(self.fonte@, self.pos as int) == fim_digitos(self.fonte@, inicio as int),
            decreases self.fonte@.len() - self.pos,
        {
            self.avancar();
            assert forall|i: int|
                0 <= i < self.fonte@.subrange(inicio as int, self.pos as int).len() implies eh_digito(
                #[trigger] self.fonte@.subrange(inicio as int, self.pos as int)[i],
            ) by {
                if i < self.pos - 1 - inicio {
                    assert(self.fonte@.subrange(inicio as int, self.pos - 1)[i]
                        == self.fonte@.subrange(inicio as int, self.pos as int)[i]);
                }
            }
        }
        let fim_inteiro = self.pos;
        // parte decimal (só é decimal se houver ponto seguido de dígito)
        let mut eh_decimal = false;
        if self.atual() == '.' && digito(self.proximo()) {
            eh_decimal = true;
            self.avancar();  // consome '.'
            while digito(self.atual())
                invariant
                    self.valido(),
                    self.fonte == old(self).fonte,
                    fim_inteiro + 1 < self.fonte@.len() + 1,
                    fim_inteiro + 1 <= self.pos <= self.fonte@.len(),
                    so_digitos(self.fonte@.subrange(fim_inteiro + 1, self.pos as int)),
                    fim_digitos(self.fonte@, self.pos as int) == fim_digitos(self.fonte@, fim_inteiro + 1),
                decreases self.fonte@.len() - self.pos,
            {
                self.avancar();
                assert forall|i: int|
                    0 <= i < self.fonte@.subrange(fim_inteiro + 1, self.pos as int).len() implies eh_digito(
                    #[trigger] self.fonte@.subrange(fim_inteiro + 1, self.pos as int)[i],
                ) by {
                    if i < self.pos - 1 - (fim_inteiro + 1) {
                        assert(self.fonte@.subrange(fim_inteiro + 1, self.pos - 1)[i]
                            == self.fonte@.subrange(fim_inteiro + 1, self.pos as int)[i]);
                    }
                }
            }
        }
        let pedaco = slice_subrange(self.fonte.as_slice(), inicio, self.pos);
        let lexema = texto_de(pedaco);
        let span = Span::novo(linha, coluna, self.pos - inicio);
        let ghost lx = self.fonte@.subrange(inicio as int, self.pos as int);
        assert(lexema@ == lx);
        // Inteiro se não tem ponto E cabe em i64; senão vira decimal.
        let tipo = if !eh_decimal {
            match analisar_inteiro(pedaco) {
                Some(i) => TipoToken::Inteiro(i),
                None => TipoToken::Decimal(texto_de(pedaco)),
            }
        } else {
            proof {
                let k = fim_inteiro - inicio;
                assert(lx[k] == '.');
                assert(lx.take(k) =~= self.fonte@.subrange(inicio as int, fim_inteiro as int));
                assert(lx.skip(k + 1) =~= self.fonte@.subrange(fim_inteiro + 1, self.pos as int));
            }
            TipoToken::Decimal(texto_de(pedaco))
        };
        Token::novo(tipo, lexema, span)
    }

    fn ler_texto(&mut self, linha: usize, coluna: usize) -> (r: Result<Token, Diagnostico>)
        requires
            old(self).valido(),
            old(self).pos < old(self).fonte@.len(),
            linha >= 1,
            coluna >= 1,
        ensures
            final(self).valido(),
            final(self).fonte == old(self).fonte,
            final(self).pos > old(self).pos,
            r is Ok ==> final(self).pos <= final(self).fonte@.len(),
            r matches Ok(t) ==> token_bem_formado(t, final(self).fonte@.len()),
            r matches Err(d) ==> d.codigo@ == "K103"@,
            r matches Err(d) ==> textos_k103(d),
            r matches Ok(t) ==> t.tipo is Texto && texto_em(old(self).fonte@, old(self).pos + 1, Seq::empty())
                == Ok::<(Seq<char>, int), ()>((t.tipo->Texto_0@, final(self).pos as int)),
            r is Err ==> texto_em(old(self).fonte@, old(self).pos + 1, Seq::empty()) is Err,
            r matches Err(d) ==> d.span == (Span { linha, coluna, comprimento: 1 }),
            r matches Ok(t) ==> t.span == (Span {
                linha,
                coluna,
                comprimento: largura(final(self).coluna as int, coluna as int, 1) as usize,
            }),
    {
        self.avancar();  // consome a aspa inicial
        let mut conteudo = String::new();
        loop
            invariant_except_break
                texto_em(self.fonte@, self.pos as int, conteudo@) == texto_em(
                    self.fonte@,
                    old(self).pos + 1,
                    Seq::empty(),
                ),
            invariant
                self.valido(),
                self.fonte == old(self).fonte,
                self.pos > old(self).pos,
            ensures
                self.valido(),
                self.fonte == old(self).fonte,
                self.pos > old(self).pos,
                self.pos <= self.fonte@.len(),
                texto_em(old(self).fonte@, old(self).pos + 1, Seq::empty()) == Ok::<(Seq<char>, int), ()>(
                    (conteudo@, self.pos as int),
                ),
            decreases self.fonte@.len() + 1 - self.pos,
        {
            if self.fim() || self.atual() == '\n' {
                let d = diag(
                    "K103",
                    "texto não foi fechado com aspas",
                    Span::novo(linha, coluna, 1),
                    "o texto começa aqui e nunca fecha",
                ).com_ajuda(texto("feche o texto com \" no fim da linha"));
                return Err(d);
            }
            let c = self.avancar();
            if c == '"' {
                break;
            }
            if c == '\\' {
                // sequências de escape
                let ghost antes = conteudo@;
                let e = self.avancar();
                if e == 'n' {
                    empurrar(&mut conteudo, '\n');
                } else if e == 't' {
                    empurrar(&mut conteudo, '\t');
                } else if e == '\\' {
                    empurrar(&mut conteudo, '\\');
                } else if e == '"' {
                    empurrar(&mut conteudo, '"');
                } else {
                    empurrar(&mut conteudo, '\\');
                    empurrar(&mut conteudo, e);
                }
                assert(conteudo@ =~= antes + escape(e));
            } else {
                empurrar(&mut conteudo, c);
            }
        }
        let comprimento = if self.coluna > coluna { self.coluna - coluna } else { 0 };
        let span = Span::novo(linha, coluna, if comprimento > 1 { comprimento } else { 1 });
        Ok(Token::novo(TipoToken::Texto(conteudo.clone()), conteudo, span))
    }

    /// Lê um texto interpolado `$"...{expr}..."`, produzindo pedaços literais e
    /// de código. `{{` e `}}` viram chaves literais.
    fn ler_texto_interp(&mut self, linha: usize, coluna: usize) -> (r: Result<Token, Diagnostico>)
        requires
            old(self).valido(),
            old(self).pos >= 1,
            old(self).pos < old(self).fonte@.len(),
            linha >= 1,
            coluna >= 1,
        ensures
            final(self).valido(),
            final(self).fonte == old(self).fonte,
            final(self).pos > old(self).pos,
            r is Ok ==> final(self).pos <= final(self).fonte@.len(),
            r matches Ok(t) ==> token_bem_formado(t, final(self).fonte@.len()),
            r matches Err(d) ==> d.codigo@ == "K104"@,
            r matches Err(d) ==> textos_k104(d),
            r matches Ok(t) ==> t.tipo is TextoInterp && interp_em(
                old(self).fonte@,
                old(self).pos + 1,
                Seq::empty(),
                Seq::empty(),
            ) == Ok::<(Seq<PedacoLexico>, int), Option<int>>(
                (descreve_pedacos(t.tipo->TextoInterp_0@), final(self).pos as int),
            ),
            r is Err ==> interp_em(old(self).fonte@, old(self).pos + 1, Seq::empty(), Seq::empty()) is Err,
            r matches Err(d) ==> match interp_em(old(self).fonte@, old(self).pos + 1, Seq::empty(), Seq::empty()) {
                Err(None) => d.span == (Span { linha, coluna, comprimento: 2 }),
                Err(Some(f)) => d.span == span_em(old(self).fonte@, f, 1),
                Ok(_) => false,
            },
            r matches Ok(t) ==> t.span == (Span {
                linha,
                coluna,
                comprimento: largura(final(self).coluna as int, coluna as int, 2) as usize,
            }),
    {
        let ghost n = self.fonte@.len();
        let ghost s = self.fonte@;
        let ghost inicio = old(self).pos + 1;
        self.avancar();  // consome a aspa inicial
        let mut pedacos: Vec<Pedaco> = Vec::new();
        let mut lit = String::new();
        proof {
            assert(descreve_pedacos(pedacos@) =~= Seq::<PedacoLexico>::empty());
        }
        loop
            invariant_except_break
                interp_em(s, self.pos as int, descreve_pedacos(pedacos@), lit@) == interp_em(
                    s,
                    inicio,
                    Seq::empty(),
                    Seq::empty(),
                ),
            invariant
                self.valido(),
                self.fonte == old(self).fonte,
                s == self.fonte@,
                inicio == old(self).pos + 1,
                n == self.fonte@.len(),
                self.pos >= 2,
                self.pos > old(self).pos,
                pedacos_limitados(pedacos@, n),
            ensures
                self.valido(),
                self.fonte == old(self).fonte,
                self.pos > old(self).pos,
                self.pos <= self.fonte@.len(),
                pedacos_limitados(pedacos@, n),
                interp_em(s, inicio, Seq::empty(), Seq::empty()) == Ok::<(Seq<PedacoLexico>, int), Option<int>>(
                    (fecha_lit(descreve_pedacos(pedacos@), lit@), self.pos as int),
                ),
            decreases self.fonte@.len() + 1 - self.pos,
        {
            if self.fim() || self.atual() == '\n' {
                let d = diag(
                    "K104",
                    "texto interpolado não foi fechado",
                    Span::novo(linha, coluna, 2),
                    "começa aqui e nunca fecha",
                ).com_ajuda(texto("feche com \" na mesma linha"));
                return Err(d);
            }
            let c = self.atual();
            if c == '"' {
                self.avancar();
                break;
            }
            let ghost q = self.pos as int;
            let ghost p_antes = descreve_pedacos(pedacos@);
            let ghost l_antes = lit@;
            if c == '\\' {
                self.avancar();
                let e = self.avancar();
                if e == 'n' {
                    empurrar(&mut lit, '\n');
                } else if e == 't' {
                    empurrar(&mut lit, '\t');
                } else if e == '\\' {
                    empurrar(&mut lit, '\\');
                } else if e == '"' {
                    empurrar(&mut lit, '"');
                } else {
                    empurrar(&mut lit, '\\');
                    empurrar(&mut lit, e);
                }
                assert(lit@ =~= l_antes + escape(e));
                continue;
            }
            if c == '{' {
                if self.proximo() == '{' {
                    self.avancar();
                    self.avancar();
                    empurrar(&mut lit, '{');
                    continue;
                }
                self.avancar();  // consome '{'
                if !lit.as_str().is_empty() {
                    let ghost antes = pedacos@;
                    pedacos.push(Pedaco::Lit(lit));
                    lit = String::new();
                    assert forall|i: int|
                        0 <= i < pedacos@.len() && #[trigger] pedacos@[i] is Cod implies pedacos@[i]->Cod_0@.len()
                        < n by {
                        if i < antes.len() {
                            assert(pedacos@[i] == antes[i]);
                        }
                    }
                    assert(descreve_pedacos(pedacos@) =~= fecha_lit(p_antes, l_antes));
                } else {
                    assert(l_antes.len() == 0);
                    assert(descreve_pedacos(pedacos@) =~= fecha_lit(p_antes, l_antes));
                    assert(lit@ =~= Seq::<char>::empty());
                }
                // coleta o código até o '}' correspondente (ciente de textos e aninhamento)
                let mut cod = String::new();
                let mut prof: usize = 1;
                let mut em_texto = false;
                let ghost inicio_cod = self.pos;
                loop
                    invariant_except_break
                        1 <= prof <= self.pos - inicio_cod + 1,
                        codigo_em(s, self.pos as int, cod@, prof as nat, em_texto) == codigo_em(
                            s,
                            q + 1,
                            Seq::empty(),
                            1,
                            false,
                        ),
                    invariant
                        self.valido(),
                        self.fonte == old(self).fonte,
                        s == self.fonte@,
                        n == self.fonte@.len(),
                        inicio_cod >= 3,
                        inicio_cod == q + 1,
                        inicio == old(self).pos + 1,
                        inicio_cod <= self.pos,
                        self.pos > old(self).pos,
                        cod@.len() <= self.pos - inicio_cod,
                        pedacos_limitados(pedacos@, n),
                        0 <= q < n,
                        s[q] == '{',
                        car(s, q + 1) != '{',
                        interp_em(s, q, p_antes, l_antes) == interp_em(
                            s,
                            inicio,
                            Seq::empty(),
                            Seq::empty(),
                        ),
                        descreve_pedacos(pedacos@) == fecha_lit(p_antes, l_antes),
                        lit@ == Seq::<char>::empty(),
                    ensures
                        codigo_em(s, q + 1, Seq::empty(), 1, false) == Ok::<(Seq<char>, int), int>(
                            (cod@, self.pos as int),
                        ),
                        self.pos <= n,
                    decreases self.fonte@.len() + 1 - self.pos,
                {
                    if self.fim() || self.atual() == '\n' {
                        let d = diag(
                            "K104",
                            "'{' não foi fechado na interpolação",
                            Span::novo(self.linha, self.coluna, 1),
                            "faltou '}'",
                        );
                        proof {
                            assert(codigo_em(s, q + 1, Seq::empty(), 1, false) == Err::<(Seq<char>, int), int>(self.pos as int));
                            assert(interp_em(s, q, p_antes, l_antes) == Err::<(Seq<PedacoLexico>, int), Option<int>>(Some(self.pos as int)));
                        }
                        return Err(d);
                    }
                    let d = self.atual();
                    let ghost cod_antes = cod@;
                    if em_texto {
                        if d == '\\' {
                            empurrar(&mut cod, d);
                            self.avancar();
                            empurrar(&mut cod, self.atual());
                            self.avancar();
                            continue;
                        }
                        if d == '"' {
                            em_texto = false;
                        }
                    } else {
                        if d == '"' {
                            em_texto = true;
                        } else if d == '{' {
                            prof = prof + 1;
                        } else if d == '}' {
                            prof = prof - 1;
                            if prof == 0 {
                                self.avancar();
                                break;
                            }
                        }
                    }
                    empurrar(&mut cod, d);
                    self.avancar();
                }
                let ghost antes = pedacos@;
                let ghost cod_v = cod@;
                pedacos.push(Pedaco::Cod(cod));
                assert forall|i: int|
                    0 <= i < pedacos@.len() && #[trigger] pedacos@[i] is Cod implies pedacos@[i]->Cod_0@.len()
                    < n by {
                    if i < antes.len() {
                        assert(pedacos@[i] == antes[i]);
                    }
                }
                assert(descreve_pedacos(pedacos@) =~= fecha_lit(p_antes, l_antes).push(
                    PedacoLexico::Cod(cod_v),
                ));
                continue;
            }
            if c == '}' {
                if self.proximo() == '}' {
                    self.avancar();
                    self.avancar();
                    empurrar(&mut lit, '}');
                    continue;
                }
                let d = Diagnostico::novo(
                    "K104",
                    texto("'}' inesperado na interpolação"),
                    Span::novo(self.linha, self.coluna, 1),
                ).com_ajuda(texto("para uma chave literal, use '}}'"));
                proof {
                    assert(interp_em(s, q, p_antes, l_antes) == Err::<(Seq<PedacoLexico>, int), Option<int>>(Some(q)));
                }
                return Err(d);
            }
            empurrar(&mut lit, c);
            self.avancar();
        }
        let ghost p_fim = descreve_pedacos(pedacos@);
        if !lit.as_str().is_empty() {
            let ghost antes = pedacos@;
            pedacos.push(Pedaco::Lit(lit));
            assert forall|i: int|
                0 <= i < pedacos@.len() && #[trigger] pedacos@[i] is Cod implies pedacos@[i]->Cod_0@.len()
                < n by {
                if i < antes.len() {
                    assert(pedacos@[i] == antes[i]);
                }
            }
            assert(descreve_pedacos(pedacos@) =~= fecha_lit(p_fim, lit@));
        }
        let comprimento = if self.coluna > coluna { self.coluna - coluna } else { 0 };
        let span = Span::novo(linha, coluna, if comprimento > 2 { comprimento } else { 2 });
        Ok(Token::novo(TipoToken::TextoInterp(pedacos), String::new(), span))
    }

    fn ler_identificador(&mut self, linha: usize, coluna: usize) -> (t: Token)
        requires
            old(self).valido(),
            old(self).pos < old(self).fonte@.len(),
            eh_alfabetico(old(self).fonte@[old(self).pos as int]) || old(self).fonte@[old(
                self,
            ).pos as int] == '_',
            linha >= 1,
            coluna >= 1,
        ensures
            final(self).valido(),
            final(self).fonte == old(self).fonte,
            final(self).pos > old(self).pos,
            final(self).pos <= final(self).fonte@.len(),
            token_bem_formado(t, final(self).fonte@.len()),
            palavra_em(old(self).fonte@, old(self).pos as int) == (descreve(t.tipo), final(self).pos as int),
            t.span == (Span { linha, coluna, comprimento: (final(self).pos - old(self).pos) as usize }),
    {
        let inicio = self.pos;
        let primeiro = self.atual();
        let _ = alfabetico(primeiro);
        self.avancar();
        loop
            invariant
                self.valido(),
                self.fonte == old(self).fonte,
                inicio == old(self).pos,
                inicio < self.pos <= self.fonte@.len(),
                forall|i: int|
                    inicio <= i < self.pos ==> (eh_alfanumerico(#[trigger] self.fonte@[i])
                        || self.fonte@[i] == '_'),
                fim_ident(self.fonte@, self.pos as int) == fim_ident(self.fonte@, inicio + 1),
            ensures
                fim_ident(self.fonte@, self.pos as int) == self.pos,
            decreases self.fonte@.len() - self.pos,
        {
            if self.fim() {
                break;
            }
            let c = self.atual();
            if !(alfanumerico(c) || c == '_') {
                break;
            }
            self.avancar();
        }
        let pedaco = slice_subrange(self.fonte.as_slice(), inicio, self.pos);
        let lexema = texto_de(pedaco);
        let span = Span::novo(linha, coluna, self.pos - inicio);
        let ghost lx = self.fonte@.subrange(inicio as int, self.pos as int);
        assert forall|i: int| 0 <= i < lx.len() implies (eh_alfanumerico(#[trigger] lx[i])
            || lx[i] == '_') by {
            assert(lx[i] == self.fonte@[inicio + i]);
        }
        let tipo = match palavra_chave_de(pedaco) {
            Some(k) => k,
            None => TipoToken::Identificador(texto_de(pedaco)),
        };
        proof {
            if palavra_chave_spec(lx) is Some {
                reveal_strlit("var");
            }
        }
        Token::novo(tipo, lexema, span)
    }
}

} // verus!
