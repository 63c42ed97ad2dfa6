//! O caminho de um programa até a execução: do texto-fonte à árvore sintática,
//! e as decisões da linha de comando e do REPL que não dependem de E/S.

use vstd::prelude::*;
use crate::ast::{bloco_ok, Cmd};
use crate::erros::{renderizado, Diagnostico};
use crate::explicacoes::{eh_codigo_conhecido, lema_codigos_lexicos};
use crate::metodos_texto::{comeca_com, ocorre_em};
use crate::lexer::{descreve_token, descreve_tokens, lexico, tokens_bem_formados, Lexema, Lexer, TokenLexico};
use crate::parser::{correspondem, erros_conhecidos, programa_simples, Parser};
use crate::texto::{aparar, aparado, contem, contem_trecho, decimal, em_maiusculas, em_minusculas, empurrar, escrever_numero, juntar, maiusculas, minusculas, texto};
use crate::token::{TipoToken, Token};

verus! {

/// Pipeline de análise: fonte -> tokens -> AST. Um erro léxico é relatado
/// sozinho; o analisador sintático pode relatar vários de uma vez. Todo erro
/// relatado tem um código com explicação em `kaju explique`.
pub fn analisar_fonte(fonte: &str) -> (r: Result<Vec<Cmd>, Vec<Diagnostico>>)
    ensures
        r matches Ok(cmds) ==> bloco_ok(cmds@, false, false),
        r matches Err(ds) ==> 1 <= ds@.len() <= 20,
        r matches Err(ds) ==> forall|i: int|
            0 <= i < ds@.len() ==> eh_codigo_conhecido(#[trigger] ds@[i].codigo@),
        lexico(fonte@) matches Err(e) ==> r matches Err(ds) && ds@.len() == 1 && ds@[0].codigo@
            == e.codigo && ds@[0].span == e.span,
        lexico(fonte@) matches Ok(ls) ==> exists|ts: Seq<Token>|
            #[trigger] descreve_tokens(ts) == ls && tokens_bem_formados(ts, fonte@.len()) && (programa_simples(
                ts,
                0,
                false,
                false,
            ) matches Some(vs) ==> r matches Ok(cmds) && correspondem(cmds@, vs)) && ({
                let ek = erros_conhecidos(ts, 0, false, false);
                ek.0.len() > 0 ==> (r matches Err(es) && (forall|k: int|
                    0 <= k < es@.len() && k < ek.0.len() ==> (#[trigger] es@[k]).codigo@ == ek.0[k].0 && es@[k].span
                        == ek.0[k].1) && es@.len() >= (if ek.0.len() <= 20 { ek.0.len() } else { 20 }) && (ek.1
                    && ek.0.len() <= 20 ==> es@.len() == ek.0.len()))
            }),
{
    let mut lexer = Lexer::novo(fonte);
    let tokens = match lexer.tokenizar() {
        Ok(ts) => ts,
        Err(d) => {
            proof {
                lema_codigos_lexicos(d.codigo@);
            }
            let mut ds: Vec<Diagnostico> = Vec::new();
            ds.push(d);
            return Err(ds);
        },
    };
    let ghost ts = tokens@;
    let mut parser = Parser::novo(tokens);
    let r = parser.analisar();
    assert(descreve_tokens(ts) == descreve_tokens(ts));
    r
}

// ---- Entrada do REPL ----

/// Quanto um token abre (+1) ou fecha (-1) de `{}`, `()` e `[]`.
pub open spec fn efeito_delimitador(t: TokenLexico) -> int {
    match t.lexema {
        Lexema::Simples(t) => if t is ChaveEsq || t is ParenEsq || t is ColcheteEsq {
            1
        } else if t is ChaveDir || t is ParenDir || t is ColcheteDir {
            -1
        } else {
            0
        },
        _ => 0,
    }
}

/// Delimitadores abertos menos fechados numa sequência de tokens.
pub open spec fn saldo_delimitadores(ls: Seq<TokenLexico>) -> int
    decreases ls.len(),
{
    if ls.len() == 0 {
        0
    } else {
        saldo_delimitadores(ls.drop_last()) + efeito_delimitador(ls.last())
    }
}

/// Se nenhum `{`, `(` ou `[` ficou aberto entre os tokens.
pub fn delimitadores_fechados(tokens: &Vec<Token>) -> (r: bool)
    ensures
        r == (saldo_delimitadores(descreve_tokens(tokens@)) <= 0),
{
    let mut abertos: usize = 0;
    let mut fechados: usize = 0;
    let mut i: usize = 0;
    while i < tokens.len()
        invariant
            i <= tokens@.len(),
            abertos <= i,
            fechados <= i,
            abertos - fechados == saldo_delimitadores(descreve_tokens(tokens@.take(i as int))),
        decreases tokens@.len() - i,
    {
        proof {
            assert(descreve_tokens(tokens@.take(i + 1)).drop_last() =~= descreve_tokens(tokens@.take(i as int)));
            assert(descreve_tokens(tokens@.take(i + 1)).last() == descreve_token(tokens@[i as int]));
        }
        match tokens[i].tipo {
            TipoToken::ChaveEsq | TipoToken::ParenEsq | TipoToken::ColcheteEsq => {
                abertos = abertos + 1;
            },
            TipoToken::ChaveDir | TipoToken::ParenDir | TipoToken::ColcheteDir => {
                fechados = fechados + 1;
            },
            _ => {},
        }
        i = i + 1;
    }
    proof {
        assert(tokens@.take(tokens@.len() as int) =~= tokens@);
    }
    abertos <= fechados
}

/// Se os delimitadores abertos no texto já foram todos fechados (ou se o
/// texto nem chega a formar tokens).
pub open spec fn completa(fonte: Seq<char>) -> bool {
    match lexico(fonte) {
        Ok(ls) => saldo_delimitadores(ls) <= 0,
        Err(_) => true,
    }
}

/// Uma entrada do REPL está completa quando os delimitadores {} () [] estão
/// balanceados. Enquanto houver algo aberto, o REPL pede mais linhas. Um erro
/// léxico (ex.: aspas sem fechar) conta como entrada completa: quem a executar
/// relata o erro.
pub fn entrada_completa(fonte: &str) -> (r: bool)
    ensures
        r == completa(fonte@),
{
    let mut lexer = Lexer::novo(fonte);
    match lexer.tokenizar() {
        Ok(ts) => delimitadores_fechados(&ts),
        Err(_) => true,
    }
}

// ---- Linha de comando ----

/// Um arquivo de testes: extensão `kaju` ou `kj`, e "teste" no nome sem a
/// extensão (sem distinguir maiúsculas de minúsculas).
pub open spec fn arquivo_de_teste(extensao: Option<Seq<char>>, nome_base: Option<Seq<char>>) -> bool {
    &&& extensao matches Some(x) && (x == "kaju"@ || x == "kj"@)
    &&& nome_base matches Some(b) && contem_trecho(em_minusculas(b), "teste"@)
}

/// O texto de um `Option<&str>`, como valor matemático.
pub open spec fn opcional(t: Option<&str>) -> Option<Seq<char>> {
    match t {
        Some(x) => Some(x@),
        None => None,
    }
}

/// Se um arquivo, dado pela extensão e pelo nome sem a extensão (as partes
/// que `Path::extension` e `Path::file_stem` dão do caminho), é um arquivo de
/// testes da linguagem.
pub fn eh_arquivo_teste(extensao: Option<&str>, nome_base: Option<&str>) -> (r: bool)
    ensures
        r == arquivo_de_teste(opcional(extensao), opcional(nome_base)),
{
    let ext_ok = match extensao {
        Some(x) => {
            let x = texto(x);
            x == texto("kaju") || x == texto("kj")
        },
        None => false,
    };
    let nome_tem_teste = match nome_base {
        Some(b) => {
            let m = minusculas(b);
            contem(m.as_str(), "teste")
        },
        None => false,
    };
    ext_ok && nome_tem_teste
}

/// O código pedido a `kaju explique`, aceito como "k016", "016" ou "K016":
/// sem espaços nas pontas, em maiúsculas e com o `K` na frente.
pub open spec fn codigo_normalizado(c: Seq<char>) -> Seq<char> {
    let u = em_maiusculas(aparado(c));
    if u.len() > 0 && u[0] == 'K' {
        u
    } else {
        seq!['K'] + u
    }
}

/// Normaliza o código pedido a `kaju explique`.
pub fn normalizar_codigo(codigo: &str) -> (r: String)
    ensures
        r@ == codigo_normalizado(codigo@),
{
    let aparado_ = aparar(codigo);
    let u = maiusculas(aparado_.as_str());
    if u.unicode_len() > 0 && u.as_str().get_char(0) == 'K' {
        u
    } else {
        let mut r = String::new();
        empurrar(&mut r, 'K');
        juntar(&mut r, u.as_str());
        assert(r@ =~= seq!['K'] + u@);
        r
    }
}

/// O que a linha de comando pede (`kaju <argumento> [alvo]`).
#[derive(Debug, PartialEq, Eq)]
pub enum Comando {
    /// `kaju explique [codigo]`.
    Explique(Option<String>),
    /// `kaju teste [alvo]`.
    Teste(Option<String>),
    /// `kaju --ajuda`, `-a` ou `ajuda`.
    Ajuda,
    /// `kaju --versao`, `-v` ou `versao`.
    Versao,
    /// `kaju <arquivo>`: executa o arquivo.
    Executar(String),
    /// `kaju` sem argumentos: abre o REPL.
    Repl,
}

/// O argumento de posição `i`, se houver.
pub open spec fn argumento(args: Seq<String>, i: int) -> Option<Seq<char>> {
    if 0 <= i < args.len() {
        Some(args[i]@)
    } else {
        None
    }
}

/// O texto de um `Option<String>`, como valor matemático.
pub open spec fn texto_opcional(t: Option<String>) -> Option<Seq<char>> {
    match t {
        Some(x) => Some(x@),
        None => None,
    }
}

/// O comando pedido pelos argumentos (o primeiro é o nome do programa).
pub open spec fn comando_pedido(args: Seq<String>, c: Comando) -> bool {
    match argumento(args, 1) {
        None => c is Repl,
        Some(a) => if a == "explique"@ {
            c matches Comando::Explique(x) && texto_opcional(x) == argumento(args, 2)
        } else if a == "teste"@ {
            c matches Comando::Teste(x) && texto_opcional(x) == argumento(args, 2)
        } else if a == "--ajuda"@ || a == "-a"@ || a == "ajuda"@ {
            c is Ajuda
        } else if a == "--versao"@ || a == "-v"@ || a == "versao"@ {
            c is Versao
        } else {
            c matches Comando::Executar(x) && x@ == a
        },
    }
}

fn argumento_opcional(args: &Vec<String>, i: usize) -> (r: Option<String>)
    ensures
        texto_opcional(r) == argumento(args@, i as int),
{
    if i < args.len() {
        Some(args[i].clone())
    } else {
        None
    }
}

/// Decide o comando a partir dos argumentos da linha de comando.
pub fn comando_de(args: &Vec<String>) -> (c: Comando)
    ensures
        comando_pedido(args@, c),
{
    if args.len() < 2 {
        return Comando::Repl;
    }
    let a = &args[1];
    if *a == texto("explique") {
        Comando::Explique(argumento_opcional(args, 2))
    } else if *a == texto("teste") {
        Comando::Teste(argumento_opcional(args, 2))
    } else if *a == texto("--ajuda") || *a == texto("-a") || *a == texto("ajuda") {
        Comando::Ajuda
    } else if *a == texto("--versao") || *a == texto("-v") || *a == texto("versao") {
        Comando::Versao
    } else {
        Comando::Executar(a.clone())
    }
}

/// A linha final de `kaju teste`: quantos testes passaram e falharam e, se
/// houver, quantos arquivos não puderam ser lidos ou analisados.
pub open spec fn linha_resumo(passaram: nat, falharam: nat, com_erro: nat) -> Seq<char> {
    "resumo: "@ + decimal(passaram) + " passaram, "@ + decimal(falharam) + " falharam"@ + if com_erro > 0 {
        ", "@ + decimal(com_erro) + " arquivo(s) com erro"@
    } else {
        Seq::empty()
    }
}

/// O resumo de `kaju teste` e se a execução terminou com sucesso (nenhuma
/// falha e nenhum arquivo com erro).
pub fn resumo_testes(passaram: usize, falharam: usize, com_erro: usize) -> (r: (String, bool))
    ensures
        r.0@ == linha_resumo(passaram as nat, falharam as nat, com_erro as nat),
        r.1 == (falharam == 0 && com_erro == 0),
{
    let mut t = texto("resumo: ");
    escrever_numero(&mut t, passaram);
    juntar(&mut t, " passaram, ");
    escrever_numero(&mut t, falharam);
    juntar(&mut t, " falharam");
    if com_erro > 0 {
        juntar(&mut t, ", ");
        escrever_numero(&mut t, com_erro);
        juntar(&mut t, " arquivo(s) com erro");
    }
    proof {
        if com_erro > 0 {
            assert(t@ =~= linha_resumo(passaram as nat, falharam as nat, com_erro as nat));
        } else {
            assert(t@ =~= linha_resumo(passaram as nat, falharam as nat, com_erro as nat));
        }
    }
    (t, falharam == 0 && com_erro == 0)
}

/// Os diagnósticos renderizados, cada um seguido de uma quebra de linha.
pub open spec fn corpo_relatorio(ds: Seq<Diagnostico>, arquivo: Seq<char>, fonte: Seq<char>) -> Seq<char>
    decreases ds.len(),
{
    if ds.len() == 0 {
        Seq::empty()
    } else {
        corpo_relatorio(ds.drop_last(), arquivo, fonte) + renderizado(ds.last(), arquivo, fonte) + "\n"@
    }
}

/// O relatório de erros de uma execução: os diagnósticos renderizados; com
/// mais de um, a contagem; e a dica de `kaju explique` para o primeiro.
pub open spec fn relatorio(ds: Seq<Diagnostico>, arquivo: Seq<char>, fonte: Seq<char>) -> Seq<char> {
    corpo_relatorio(ds, arquivo, fonte) + (if ds.len() > 1 {
        "("@ + decimal(ds.len()) + " erros encontrados)\n"@
    } else {
        Seq::empty()
    }) + (if ds.len() > 0 {
        "dica: rode 'kaju explique "@ + ds[0].codigo@ + "' para entender este erro.\n"@
    } else {
        Seq::empty()
    })
}

/// Monta o relatório de erros que `kaju arquivo.kaju` escreve na saída de erro.
pub fn relatorio_erros(ds: &Vec<Diagnostico>, arquivo: &str, fonte: &str) -> (r: String)
    ensures
        r@ == relatorio(ds@, arquivo@, fonte@),
{
    let mut t = String::new();
    let mut i: usize = 0;
    while i < ds.len()
        invariant
            i <= ds@.len(),
            t@ == corpo_relatorio(ds@.take(i as int), arquivo@, fonte@),
        decreases ds@.len() - i,
    {
        let r = ds[i].render(arquivo, fonte);
        juntar(&mut t, r.as_str());
        juntar(&mut t, "\n");
        proof {
            assert(ds@.take(i + 1).drop_last() =~= ds@.take(i as int));
        }
        i = i + 1;
    }
    proof {
        assert(ds@.take(i as int) =~= ds@);
    }
    let ghost corpo = t@;
    if ds.len() > 1 {
        juntar(&mut t, "(");
        escrever_numero(&mut t, ds.len());
        juntar(&mut t, " erros encontrados)\n");
    }
    let ghost meio = t@;
    if ds.len() > 0 {
        juntar(&mut t, "dica: rode 'kaju explique ");
        juntar(&mut t, ds[0].codigo.as_str());
        juntar(&mut t, "' para entender este erro.\n");
    }
    proof {
        assert(t@ =~= relatorio(ds@, arquivo@, fonte@));
    }
    t
}

// ---- REPL ----

/// O que o REPL recebe a cada leitura do terminal.
pub enum EventoRepl {
    /// Uma linha digitada, sem a quebra de linha.
    Linha(String),
    /// Ctrl+C: abandona o que estava sendo digitado.
    Interrompido,
    /// Ctrl+D ou falha de leitura: encerra a sessão.
    Fim,
}

/// O que o REPL faz em seguida.
pub enum AcaoRepl {
    /// Ainda há delimitadores abertos: pedir mais uma linha.
    PedirMais,
    /// A entrada está completa: executá-la e guardá-la no histórico.
    Executar(String),
    /// Nada a executar (entrada em branco ou cancelada): esperar a próxima.
    Continuar,
    /// Encerrar a sessão.
    Sair,
}

/// A entrada do REPL sendo montada, linha a linha.
pub struct Repl {
    buffer: String,
}

impl Repl {
    /// O que já foi digitado da entrada em curso, com as quebras de linha.
    pub closed spec fn pendente(&self) -> Seq<char> {
        self.buffer@
    }

    pub fn novo() -> (r: Repl)
        ensures
            r.pendente() == Seq::<char>::empty(),
    {
        Repl { buffer: String::new() }
    }

    /// `kaju> ` no começo de uma entrada, `....> ` nas linhas seguintes.
    pub fn prompt(&self) -> (p: &'static str)
        ensures
            p@ == (if self.pendente().len() == 0 { "kaju> "@ } else { "....> "@ }),
    {
        if self.buffer.as_str().is_empty() {
            "kaju> "
        } else {
            "....> "
        }
    }

    /// Um passo do REPL: junta a linha lida à entrada em curso e decide se
    /// ela já pode ser executada.
    pub fn receber(&mut self, evento: EventoRepl) -> (a: AcaoRepl)
        ensures
            match evento {
                EventoRepl::Linha(l) => {
                    let b = old(self).pendente() + l@ + seq!['\n'];
                    if completa(b) {
                        &&& final(self).pendente() == Seq::<char>::empty()
                        &&& if aparado(b).len() == 0 {
                            a is Continuar
                        } else {
                            a matches AcaoRepl::Executar(t) && t@ == b
                        }
                    } else {
                        final(self).pendente() == b && a is PedirMais
                    }
                },
                EventoRepl::Interrompido => final(self).pendente() == Seq::<char>::empty() && a is Continuar,
                EventoRepl::Fim => final(self).pendente() == old(self).pendente() && a is Sair,
            },
    {
        match evento {
            EventoRepl::Linha(l) => {
                juntar(&mut self.buffer, l.as_str());
                empurrar(&mut self.buffer, '\n');
                assert(self.buffer@ =~= old(self).pendente() + l@ + seq!['\n']);
                if !entrada_completa(self.buffer.as_str()) {
                    return AcaoRepl::PedirMais;
                }
                let mut b = String::new();
                std::mem::swap(&mut b, &mut self.buffer);
                let limpo = aparar(b.as_str());
                if limpo.as_str().is_empty() {
                    AcaoRepl::Continuar
                } else {
                    AcaoRepl::Executar(b)
                }
            },
            EventoRepl::Interrompido => {
                self.buffer = String::new();
                AcaoRepl::Continuar
            },
            EventoRepl::Fim => AcaoRepl::Sair,
        }
    }
}

/// Os nomes das funções declaradas no programa cujo nome começa com
/// "teste", na ordem em que aparecem.
pub open spec fn testes_de(p: Seq<Cmd>) -> Seq<String>
    decreases p.len(),
{
    if p.len() == 0 {
        Seq::empty()
    } else {
        let r = testes_de(p.drop_last());
        match p.last() {
            Cmd::DeclFuncao { nome, .. } => if ocorre_em(nome@, "teste"@, 0) {
                r.push(nome)
            } else {
                r
            },
            _ => r,
        }
    }
}

/// O nome declarado por um comando de função, se ele for um.
pub open spec fn nome_declarado(c: Cmd) -> Option<String> {
    match c {
        Cmd::DeclFuncao { nome, .. } => Some(nome),
        _ => None,
    }
}

/// O texto começa com "teste": os seus primeiros caracteres são exatamente
/// os de "teste".
pub open spec fn comeca_com_teste(s: Seq<char>) -> bool {
    "teste"@.len() <= s.len() && s.subrange(0, "teste"@.len() as int) == "teste"@
}

/// O programa declara uma função com o nome `n`.
pub open spec fn declara(p: Seq<Cmd>, n: String) -> bool {
    exists|j: int| 0 <= j < p.len() && #[trigger] nome_declarado(p[j]) == Some(n)
}

/// O que `testes_de` escolhe, dito diretamente: cada nome escolhido começa
/// com "teste" e é o de uma função declarada no programa, e cada função
/// declarada com um nome assim é escolhida.
proof fn lema_testes_de(p: Seq<Cmd>)
    ensures
        forall|k: int|
            0 <= k < testes_de(p).len() ==> comeca_com_teste((#[trigger] testes_de(p)[k])@) && declara(
                p,
                testes_de(p)[k],
            ),
        forall|n: String| #[trigger] declara(p, n) && comeca_com_teste(n@) ==> testes_de(p).contains(n),
    decreases p.len(),
{
    if p.len() > 0 {
        let d = p.drop_last();
        lema_testes_de(d);
        let r = testes_de(p);
        let rd = testes_de(d);
        assert forall|k: int| 0 <= k < r.len() implies comeca_com_teste((#[trigger] r[k])@) && declara(p, r[k]) by {
            if k < rd.len() {
                assert(r[k] == rd[k]);
                assert(declara(d, rd[k]));
                let j = choose|j: int| 0 <= j < d.len() && #[trigger] nome_declarado(d[j]) == Some(rd[k]);
                assert(p[j] == d[j]);
                assert(nome_declarado(p[j]) == Some(r[k]));
            } else {
                assert(nome_declarado(p[p.len() - 1]) == Some(r[k]));
            }
        }
        assert forall|n: String| #[trigger] declara(p, n) && comeca_com_teste(n@) implies r.contains(n) by {
            let j = choose|j: int| 0 <= j < p.len() && #[trigger] nome_declarado(p[j]) == Some(n);
            if j < d.len() {
                assert(p[j] == d[j]);
                assert(nome_declarado(d[j]) == Some(n));
                assert(declara(d, n));
                let k = choose|k: int| 0 <= k < rd.len() && rd[k] == n;
                assert(r[k] == rd[k]);
            } else {
                assert(r[rd.len() as int] == n);
            }
        }
    }
}

/// As funções que `kaju teste` roda: as declaradas no programa cujo nome
/// começa com "teste", na ordem do programa. Todo nome devolvido começa com
/// "teste" e é o de uma função declarada, e toda função declarada com um
/// nome assim é devolvida.
pub fn funcoes_de_teste(programa: &Vec<Cmd>) -> (r: Vec<String>)
    ensures
        r@ == testes_de(programa@),
        forall|k: int| 0 <= k < r@.len() ==> comeca_com_teste((#[trigger] r@[k])@) && declara(programa@, r@[k]),
        forall|n: String| #[trigger] declara(programa@, n) && comeca_com_teste(n@) ==> r@.contains(n),
{
    let mut r: Vec<String> = Vec::new();
    let mut i: usize = 0;
    while i < programa.len()
        invariant
            i <= programa@.len(),
            r@ == testes_de(programa@.take(i as int)),
        decreases programa@.len() - i,
    {
        proof {
            assert(programa@.take(i + 1).drop_last() =~= programa@.take(i as int));
        }
        match &programa[i] {
            Cmd::DeclFuncao { nome, .. } => {
                if comeca_com(nome.as_str(), "teste") {
                    r.push(nome.clone());
                }
            },
            _ => {},
        }
        i = i + 1;
    }
    proof {
        assert(programa@.take(i as int) =~= programa@);
        lema_testes_de(programa@);
    }
    r
}

} // verus!
